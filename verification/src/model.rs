//! The records the two stores hold, and their mathematical views.
//!
//! Contracts never compare `String`s directly: a record is viewed as its
//! fields, each string as its sequence of characters and each timestamp as
//! a natural number.

use vstd::prelude::*;

verus! {

/// How long a session lives after it was issued, in seconds (24 hours).
pub const SESSION_TTL_SECS: u64 = 86400;

/// A registered user.
#[derive(Debug)]
pub struct User {
    /// The key of the record; compared exactly, case included.
    pub username: String,
    /// The salted one-way hash of the password, never the password.
    pub password_hash: String,
    /// A free-form tag such as `"admin"`.
    pub role: String,
}

/// What a [`User`] is to the contracts.
pub ghost struct UserView {
    pub username: Seq<char>,
    pub password_hash: Seq<char>,
    pub role: Seq<char>,
}

impl View for User {
    type V = UserView;

    open spec fn view(&self) -> UserView {
        UserView {
            username: self.username@,
            password_hash: self.password_hash@,
            role: self.role@,
        }
    }
}

impl Clone for User {
    fn clone(&self) -> (r: Self)
        ensures
            r@ == self@,
    {
        User {
            username: self.username.clone(),
            password_hash: self.password_hash.clone(),
            role: self.role.clone(),
        }
    }
}

/// A user as callers outside the stores see one: the name and the role,
/// without the password hash.
#[derive(Debug)]
pub struct AuthenticatedUser {
    pub username: String,
    pub role: String,
}

/// What an [`AuthenticatedUser`] is to the contracts.
pub ghost struct AuthenticatedUserView {
    pub username: Seq<char>,
    pub role: Seq<char>,
}

impl View for AuthenticatedUser {
    type V = AuthenticatedUserView;

    open spec fn view(&self) -> AuthenticatedUserView {
        AuthenticatedUserView { username: self.username@, role: self.role@ }
    }
}

/// The part of a user record that leaves the credential store.
pub open spec fn public_face(user: UserView) -> AuthenticatedUserView {
    AuthenticatedUserView { username: user.username, role: user.role }
}

impl User {
    /// The name and the role of this user, without the hash.
    pub fn to_authenticated(&self) -> (r: AuthenticatedUser)
        ensures
            r@ == public_face(self@),
    {
        AuthenticatedUser { username: self.username.clone(), role: self.role.clone() }
    }
}

/// An issued session.
#[derive(Debug)]
pub struct Session {
    /// The opaque token that names the session.
    pub session_id: String,
    /// The user the session was issued to.
    pub username: String,
    /// When the session was issued, in seconds since the Unix epoch.
    pub created_at: u64,
    /// The first second at which the session is no longer valid.
    pub expires_at: u64,
}

/// What a [`Session`] is to the contracts.
pub ghost struct SessionView {
    pub session_id: Seq<char>,
    pub username: Seq<char>,
    pub created_at: nat,
    pub expires_at: nat,
}

impl View for Session {
    type V = SessionView;

    open spec fn view(&self) -> SessionView {
        SessionView {
            session_id: self.session_id@,
            username: self.username@,
            created_at: self.created_at as nat,
            expires_at: self.expires_at as nat,
        }
    }
}

impl Clone for Session {
    fn clone(&self) -> (r: Self)
        ensures
            r@ == self@,
    {
        Session {
            session_id: self.session_id.clone(),
            username: self.username.clone(),
            created_at: self.created_at,
            expires_at: self.expires_at,
        }
    }
}

/// The views of a sequence of users, in the same order.
pub open spec fn user_views(users: Seq<User>) -> Seq<UserView> {
    users.map_values(|u: User| u@)
}

/// The views of a sequence of sessions, in the same order.
pub open spec fn session_views(sessions: Seq<Session>) -> Seq<SessionView> {
    sessions.map_values(|s: Session| s@)
}

} // verus!
