//! Record identifiers: opaque 128-bit tokens drawn at creation time and
//! never reassigned.

use vstd::prelude::*;

verus! {

/// Relies on uuid::Uuid::new_v4 and uuid::Uuid::as_u128: a freshly drawn
/// random version-4 UUID, read out as its 128-bit value. The draw is random,
/// so nothing is promised of the result; callers that need freshness check
/// it against their own state.
#[verifier::external_body]
pub(crate) fn fresh_id() -> u128 {
    uuid::Uuid::new_v4().as_u128()
}

} // verus!
