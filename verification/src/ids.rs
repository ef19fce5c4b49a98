use vstd::prelude::*;

verus! {

/// Relies on uuid::Uuid::new_v4, which draws a fresh random version-4
/// UUID, read out as its 128-bit value. The result is random, so
/// nothing is promised of it; uniqueness of live entities is enforced
/// by the stores, never assumed of the generator.
#[verifier::external_body]
pub(crate) fn fresh_id_value() -> u128 {
    uuid::Uuid::new_v4().as_u128()
}

} // verus!
