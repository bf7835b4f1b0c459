//! Fresh opaque identifiers, minted from the system's randomness.
//!
//! Receipts, resource identifiers and credential salts are all 128-bit
//! random values; collisions are assumed negligible, not enforced.

use vstd::prelude::*;

verus! {

/// Relies on uuid's `new_v4`: a fresh random 128-bit identifier.  The value
/// is random, so nothing is assumed of it beyond its 16-byte length.
#[verifier::external_body]
pub(crate) fn fresh_uuid_bytes() -> (r: Vec<u8>)
    ensures
        r@.len() == 16,
{
    uuid::Uuid::new_v4().into_bytes().to_vec()
}

} // verus!
