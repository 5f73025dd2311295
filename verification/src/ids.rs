//! The identifiers which requests to the daemon are told apart by.

use vstd::prelude::*;

verus! {

/// Whether a number is the bits of a random (version 4) UUID: the four bits of the version say
/// 4, and the two bits of the variant say 2, which is the variant of RFC 4122.
pub open spec fn is_random_uuid(id: u128) -> bool {
    &&& (id >> 76u128) & 0xfu128 == 4
    &&& (id >> 62u128) & 0x3u128 == 2
}

/// Return a new identifier for a request.
///
/// Calls `uuid::Uuid::new_v4`, which draws 128 bits at random and then sets the version and
/// variant bits, and gives the bits back as a number with `Uuid::as_u128`. Which number comes
/// back is left to chance, so all that is claimed is that the version and variant bits are set.
#[verifier::external_body]
pub fn fresh_id() -> (id: u128)
    ensures
        is_random_uuid(id),
{
    uuid::Uuid::new_v4().as_u128()
}

} // verus!
