//! Generation of fresh record ids.

use vstd::prelude::*;

verus! {

/// Relies on uuid::Uuid::new_v4 for a version-4 UUID drawn at random,
/// read back as its 128-bit value with uuid::Uuid::as_u128. The draw is
/// random, so nothing is promised of the value; callers must check it
/// against the ids already held.
#[verifier::external_body]
pub(crate) fn fresh_id() -> u128 {
    uuid::Uuid::new_v4().as_u128()
}

} // verus!
