//! The credential store: it owns the users, admits the first of them and
//! checks the credentials of a login.
//!
//! Users are kept in the order in which they came.  A name is looked up by
//! exact match, and where several records bear it the first one counts.

use vstd::prelude::*;
use bcrypt::BcryptError;
use crate::error::AuthError;
use crate::hashing::{hash_password, password_matches, verify_password};
use crate::model::{
    public_face, user_views, AuthenticatedUser, AuthenticatedUserView, User, UserView,
};

verus! {

/// Whether the service still waits for its first user.
pub open spec fn needs_setup(users: Seq<UserView>) -> bool {
    users.len() == 0
}

/// Whether some user bears the name `username`.
pub open spec fn knows(users: Seq<UserView>, username: Seq<char>) -> bool {
    exists|i: int| 0 <= i < users.len() && (#[trigger] users[i]).username == username
}

/// Whether `i` is the place of the first user that bears the name
/// `username`.
pub open spec fn is_first_named(users: Seq<UserView>, username: Seq<char>, i: int) -> bool {
    &&& 0 <= i < users.len()
    &&& users[i].username == username
    &&& forall|j: int| 0 <= j < i ==> (#[trigger] users[j]).username != username
}

/// The user that a login under `username` is checked against.
pub open spec fn lookup(users: Seq<UserView>, username: Seq<char>) -> Option<UserView> {
    if knows(users, username) {
        Some(users[choose|i: int| is_first_named(users, username, i)])
    } else {
        None
    }
}

/// What a login with `username` and `password` yields: the user's public
/// face where the name is known and its stored hash accepts the password,
/// nothing in every other case.
pub open spec fn credentials_accepted(
    users: Seq<UserView>,
    username: Seq<char>,
    password: Seq<char>,
) -> Option<AuthenticatedUserView> {
    match lookup(users, username) {
        Some(user) => if password_matches(password, user.password_hash) {
            Some(public_face(user))
        } else {
            None
        },
        None => None,
    }
}

/// The store after `first` asked to be its first user: admitted into an
/// empty store, turned away from any other.
pub open spec fn after_bootstrap(users: Seq<UserView>, first: UserView) -> Seq<UserView> {
    if needs_setup(users) {
        seq![first]
    } else {
        users
    }
}

/// Whether some user carries the role `"admin"`.
pub open spec fn has_admin(users: Seq<UserView>) -> bool {
    exists|i: int| 0 <= i < users.len() && (#[trigger] users[i]).role == "admin"@
}

/// The record of a user whose password was hashed: `hashed` is what the
/// hashing gave.  A hash becomes the user's `password_hash`; a failure
/// becomes [`AuthError::HashingFailure`].
pub fn user_from_hash(username: &str, hashed: Result<String, BcryptError>, role: &str) -> (r:
    Result<User, AuthError>)
    ensures
        match hashed {
            Ok(hash) => r matches Ok(user) && user@ == (UserView {
                username: username@,
                password_hash: hash@,
                role: role@,
            }),
            Err(_) => r matches Err(e) && e == AuthError::HashingFailure,
        },
{
    match hashed {
        Ok(hash) => Ok(
            User { username: username.to_owned(), password_hash: hash, role: role.to_owned() },
        ),
        Err(_) => Err(AuthError::HashingFailure),
    }
}

/// Hashes `password` and makes the record of a user with that hash.  The
/// record is not put into any store.
///
/// Hashing draws a random salt, so it may fail; where it does not, the
/// stored hash accepts `password`.
pub fn create_user(username: &str, password: &str, role: &str) -> (r: Result<User, AuthError>)
    ensures
        match r {
            Ok(user) => {
                &&& user@.username == username@
                &&& user@.role == role@
                &&& password_matches(password@, user@.password_hash)
            },
            Err(e) => e == AuthError::HashingFailure,
        },
{
    user_from_hash(username, hash_password(password), role)
}

/// What a login yields once the password was checked against the hash of
/// `user`: `checked` is what the check gave.  Only `Ok(true)` lets the user
/// in; a mismatch and a failed check are the same refusal.
pub fn grant(user: &User, checked: Result<bool, BcryptError>) -> (r: Option<AuthenticatedUser>)
    ensures
        match r {
            Some(who) => checked matches Ok(true) && who@ == public_face(user@),
            None => !(checked matches Ok(true)),
        },
{
    match checked {
        Ok(true) => Some(user.to_authenticated()),
        _ => None,
    }
}

/// The registered users of the service.
pub struct CredentialStore {
    users: Vec<User>,
}

impl View for CredentialStore {
    type V = Seq<UserView>;

    closed spec fn view(&self) -> Seq<UserView> {
        user_views(self.users@)
    }
}

impl CredentialStore {
    /// A store without users.
    pub fn new() -> (store: CredentialStore)
        ensures
            store@ == Seq::<UserView>::empty(),
    {
        CredentialStore { users: Vec::new() }
    }

    /// A store that holds `users`, in their order.
    pub fn from_users(users: Vec<User>) -> (store: CredentialStore)
        ensures
            store@ == user_views(users@),
    {
        CredentialStore { users }
    }

    /// The users of the store, in their order: what a caller writes out
    /// when it mirrors the store.
    pub fn records(&self) -> (users: &Vec<User>)
        ensures
            user_views(users@) == self@,
    {
        &self.users
    }

    /// The number of users in the store.
    pub fn len(&self) -> (n: usize)
        ensures
            n == self@.len(),
    {
        self.users.len()
    }

    /// Whether the store is empty, so that the first user may still be
    /// created.
    pub fn bootstrap_needed(&self) -> (needed: bool)
        ensures
            needed == needs_setup(self@),
    {
        self.users.len() == 0
    }

    /// The place of the first user that bears the name `username`.
    pub fn find(&self, username: &str) -> (place: Option<usize>)
        ensures
            match place {
                Some(i) => is_first_named(self@, username@, i as int),
                None => !knows(self@, username@),
            },
    {
        let wanted = username.to_owned();
        let n = self.users.len();
        let mut i: usize = 0;
        while i < n
            invariant
                i <= n,
                n == self.users.len(),
                wanted@ == username@,
                forall|j: int| 0 <= j < i ==> (#[trigger] self@[j]).username != username@,
            decreases n - i,
        {
            if self.users[i].username == wanted {
                return Some(i);
            }
            i += 1;
        }
        None
    }

    /// Checks a login: the user's public face where `username` is known
    /// and the stored hash accepts `password`; `None` where the name is
    /// unknown, the password is another one or the check itself fails.
    pub fn verify_credentials(&self, username: &str, password: &str) -> (r: Option<
        AuthenticatedUser,
    >)
        ensures
            match r {
                Some(who) => credentials_accepted(self@, username@, password@) == Some(who@),
                None => credentials_accepted(self@, username@, password@) is None,
            },
    {
        match self.find(username) {
            Some(i) => {
                let user = &self.users[i];
                grant(user, verify_password(password, user.password_hash.as_str()))
            },
            None => None,
        }
    }

    /// Admits `first` as the first user.  A store that already holds a user
    /// turns it away with [`AuthError::AlreadyInitialized`] and stays as it
    /// is.
    pub fn bootstrap(&mut self, first: User) -> (r: Result<AuthenticatedUser, AuthError>)
        ensures
            final(self)@ == after_bootstrap(old(self)@, first@),
            match r {
                Ok(who) => needs_setup(old(self)@) && who@ == public_face(first@),
                Err(e) => !needs_setup(old(self)@) && e == AuthError::AlreadyInitialized,
            },
    {
        if self.users.len() != 0 {
            return Err(AuthError::AlreadyInitialized);
        }
        let who = first.to_authenticated();
        self.users.push(first);
        Ok(who)
    }

    /// Creates the first user, with the role `"admin"`.  This is the one
    /// way in which this library adds a user, and it works once.
    ///
    /// A store that holds a user answers [`AuthError::AlreadyInitialized`]
    /// and hashes nothing.  On an empty store the password is hashed; where
    /// that fails the answer is [`AuthError::HashingFailure`].  An error
    /// leaves the store as it was.
    pub fn create_admin(&mut self, username: &str, password: &str) -> (r: Result<
        AuthenticatedUser,
        AuthError,
    >)
        ensures
            !needs_setup(old(self)@) ==> r is Err,
            match r {
                Ok(who) => {
                    &&& needs_setup(old(self)@)
                    &&& final(self)@.len() == 1
                    &&& final(self)@[0].username == username@
                    &&& final(self)@[0].role == "admin"@
                    &&& password_matches(password@, final(self)@[0].password_hash)
                    &&& who@ == public_face(final(self)@[0])
                },
                Err(e) => {
                    &&& final(self)@ == old(self)@
                    &&& e == if needs_setup(old(self)@) {
                        AuthError::HashingFailure
                    } else {
                        AuthError::AlreadyInitialized
                    }
                },
            },
    {
        if !self.bootstrap_needed() {
            return Err(AuthError::AlreadyInitialized);
        }
        match create_user(username, password, "admin") {
            Ok(admin) => self.bootstrap(admin),
            Err(e) => Err(e),
        }
    }
}

/// Whether some user of the store carries the role `"admin"`.
pub fn admin_exists(users: &CredentialStore) -> (found: bool)
    ensures
        found == has_admin(users@),
{
    let admin = "admin".to_owned();
    let n = users.users.len();
    let mut i: usize = 0;
    while i < n
        invariant
            i <= n,
            n == users.users.len(),
            admin@ == "admin"@,
            forall|j: int| 0 <= j < i ==> (#[trigger] users@[j]).role != "admin"@,
        decreases n - i,
    {
        if users.users[i].role == admin {
            assert(users@[i as int].role == "admin"@);
            return true;
        }
        i += 1;
    }
    false
}

} // verus!
