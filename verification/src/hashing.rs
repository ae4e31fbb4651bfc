//! Password hashing, done by the `bcrypt` crate.
//!
//! Nothing in this module is proved: it says what the rest of the library
//! takes on trust from `bcrypt`.

use vstd::prelude::*;
use bcrypt::BcryptError;

verus! {

/// `bcrypt::BcryptError`, the error of the `bcrypt` crate.  Nothing of its
/// inside is known here.
#[verifier::external_type_specification]
#[verifier::external_body]
pub struct ExBcryptError(BcryptError);

/// What `bcrypt::verify` returns for a password and a stored hash:
/// `Some(true)` where the hash is that of the password, `Some(false)` where
/// it is the hash of another password, `None` where `verify` returns an
/// error because the hash is malformed or names a cost that `bcrypt` does
/// not allow.  The answer depends on the two strings alone.
pub uninterp spec fn bcrypt_verify(password: Seq<char>, hash: Seq<char>) -> Option<bool>;

/// Whether the stored `hash` accepts `password`.
pub open spec fn password_matches(password: Seq<char>, hash: Seq<char>) -> bool {
    bcrypt_verify(password, hash) == Some(true)
}

/// Calls `bcrypt::verify`, which reads cost and salt from `hash`, hashes
/// `password` with them and compares.  The contract gives the result the
/// name [`bcrypt_verify`].
#[verifier::external_body]
pub(crate) fn verify_password(password: &str, hash: &str) -> (r: Result<bool, BcryptError>)
    ensures
        match r {
            Ok(same) => bcrypt_verify(password@, hash@) == Some(same),
            Err(_) => bcrypt_verify(password@, hash@) is None,
        },
{
    bcrypt::verify(password, hash)
}

/// Calls `bcrypt::hash` with `bcrypt::DEFAULT_COST`, which draws a random
/// salt from the operating system and fails where that has none to give.
/// The contract claims of a hash that comes back that `bcrypt::verify`
/// accepts `password` against it.
#[verifier::external_body]
pub(crate) fn hash_password(password: &str) -> (r: Result<String, BcryptError>)
    ensures
        r matches Ok(hash) ==> password_matches(password@, hash@),
{
    bcrypt::hash(password, bcrypt::DEFAULT_COST)
}

} // verus!
