//! How a store starts from what was found on disk.
//!
//! Reading and decoding a document is the caller's part.  What it found
//! comes here as a [`Document`], and the rule is the same for both stores:
//! a document that is not there is the first run, one that cannot be read
//! or understood is reported, and in both cases the store starts empty.

use vstd::prelude::*;
use crate::credentials::CredentialStore;
use crate::error::AuthError;
use crate::model::{session_views, user_views, Session, User};
use crate::sessions::SessionStore;

verus! {

/// What the caller found where the document of a store should be.
pub enum Document<T> {
    /// There is no document.
    Missing,
    /// There is one, and reading it failed.
    Unreadable,
    /// It was read, and it is not a list of records.
    Malformed,
    /// The records of the document, in its order.
    Records(Vec<T>),
}

impl<T> Document<T> {
    /// What is reported of this document: nothing where it is missing or
    /// was understood, [`AuthError::PersistenceReadError`] otherwise.
    pub open spec fn diagnostic(self) -> Option<AuthError> {
        match self {
            Document::Missing => None,
            Document::Unreadable => Some(AuthError::PersistenceReadError),
            Document::Malformed => Some(AuthError::PersistenceReadError),
            Document::Records(_) => None,
        }
    }

    /// The records that the store starts with.
    pub open spec fn records(self) -> Seq<T> {
        match self {
            Document::Records(records) => records@,
            _ => Seq::empty(),
        }
    }

    /// Splits what was found into the records to start with and the
    /// diagnostic to report.
    pub fn recover(self) -> (r: (Vec<T>, Option<AuthError>))
        ensures
            r.0@ == self.records(),
            r.1 == self.diagnostic(),
    {
        match self {
            Document::Missing => (Vec::new(), None),
            Document::Unreadable => (Vec::new(), Some(AuthError::PersistenceReadError)),
            Document::Malformed => (Vec::new(), Some(AuthError::PersistenceReadError)),
            Document::Records(records) => (records, None),
        }
    }
}

/// Starts the credential store from what was found of its document.
pub fn load_users(found: Document<User>) -> (r: (CredentialStore, Option<AuthError>))
    ensures
        r.0@ == user_views(found.records()),
        r.1 == found.diagnostic(),
{
    let (users, diagnostic) = found.recover();
    (CredentialStore::from_users(users), diagnostic)
}

/// Starts the session store from what was found of its document.
pub fn load_sessions(found: Document<Session>) -> (r: (SessionStore, Option<AuthError>))
    ensures
        r.0@ == session_views(found.records()),
        r.1 == found.diagnostic(),
{
    let (sessions, diagnostic) = found.recover();
    (SessionStore::from_sessions(sessions), diagnostic)
}

} // verus!
