//! Identifier generation for simulation entities.
//!
//! Identity is an opaque external capability: a collision-resistant
//! 128-bit identifier drawn from the process random source.

use vstd::prelude::*;

verus! {

/// Relies on `uuid::Uuid::new_v4`: a fresh version-4 UUID drawn from the
/// process random source, handed back as its 128-bit value.  The result
/// is random, so nothing is promised of it.
#[verifier::external_body]
pub(crate) fn fresh_id() -> u128 {
    uuid::Uuid::new_v4().as_u128()
}

} // verus!
