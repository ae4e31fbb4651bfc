//! What can go wrong in the stores.

use vstd::prelude::*;

verus! {

/// The failures that the library reports.  None of them ends the process:
/// the caller decides what to do with each.
#[derive(Debug, Clone, Copy, PartialEq, Eq, Structural)]
pub enum AuthError {
    /// The first user was asked for while the credential store already
    /// held one.
    AlreadyInitialized,
    /// The password could not be hashed.
    HashingFailure,
    /// A persisted document was there but could not be read or understood;
    /// the store starts empty.
    PersistenceReadError,
}

} // verus!
