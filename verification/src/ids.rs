//! Generation of session identifiers.

use vstd::prelude::*;

verus! {

/// Relies on `uuid::Uuid::new_v4` and its `Display` form: a fresh random
/// version-4 identifier rendered as 36 hyphenated lowercase hexadecimal
/// characters.  Which identifier comes back depends on chance, so nothing
/// beyond the length is assumed.
#[verifier::external_body]
pub(crate) fn new_session_id() -> (id: String)
    ensures
        id@.len() == 36,
{
    uuid::Uuid::new_v4().to_string()
}

} // verus!
