//! Session tokens, drawn by the `uuid` crate.

use vstd::prelude::*;

verus! {

/// Calls `uuid::Uuid::new_v4`, which draws the identifier's random bits
/// from the operating system (and panics where that has none to give), and
/// renders the identifier in its hyphenated form.  The contract claims the
/// length of that form, 36 characters, and nothing of the characters.
#[verifier::external_body]
pub(crate) fn fresh_session_id() -> (id: String)
    ensures
        id@.len() == 36,
{
    uuid::Uuid::new_v4().to_string()
}

} // verus!
