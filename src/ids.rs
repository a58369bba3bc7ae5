use vstd::prelude::*;

verus! {

/// Relies on uuid::Uuid::new_v4 (random version-4 identifier) and
/// uuid::Uuid::as_u128: a fresh identifier for a new counter. Nothing is
/// promised of the value.
#[verifier::external_body]
pub(crate) fn fresh_id() -> (r: u128) {
    uuid::Uuid::new_v4().as_u128()
}

} // verus!
