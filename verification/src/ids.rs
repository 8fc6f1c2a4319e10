//! Generation of fresh identifiers.

use vstd::prelude::*;

verus! {

/// Relies on `uuid::Uuid::new_v4` for a randomly generated identifier,
/// taken as its 128-bit value via `Uuid::as_u128`. The result is random:
/// nothing is promised of it, in particular not uniqueness.
#[verifier::external_body]
pub(crate) fn fresh_id() -> u128 {
    uuid::Uuid::new_v4().as_u128()
}

} // verus!
