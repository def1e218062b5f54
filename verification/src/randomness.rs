//! The randomness that resolves a round: the latest value that an accepted
//! source has published.

use vstd::prelude::*;
use crate::codec::{le_value, read_u64_le};
use crate::identity::Identity;

verus! {

/// The address of the account that publishes the hashes of recent slots.
pub const SLOT_HASHES: [u8; 32] = [
    6, 167, 213, 23, 25, 47, 10, 175, 198, 242, 101, 227, 251, 119, 204, 122,
    218, 130, 197, 41, 208, 190, 59, 19, 110, 45, 0, 85, 32, 0, 0, 0,
];

/// The address of the account that published the hashes of recent blocks,
/// before the one above took its place.
pub const BLOCK_HASHES: [u8; 32] = [
    6, 167, 213, 23, 25, 44, 86, 142, 224, 138, 132, 95, 115, 210, 151, 136,
    207, 3, 92, 49, 69, 178, 26, 179, 68, 216, 6, 46, 169, 64, 0, 0,
];

/// Offset of the latest value in what a source publishes.
pub const ENTROPY_OFFSET: usize = 12;

/// Whether randomness may be taken from `source`.
pub open spec fn accepted_source(source: Identity) -> bool {
    source.bytes == SLOT_HASHES || source.bytes == BLOCK_HASHES
}

/// Whether randomness may be taken from `source`.
pub fn is_accepted_source(source: &Identity) -> (accepted: bool)
    ensures
        accepted == accepted_source(*source),
{
    let slot_hashes = Identity { bytes: SLOT_HASHES };
    let block_hashes = Identity { bytes: BLOCK_HASHES };
    source.equals(&slot_hashes) || source.equals(&block_hashes)
}

/// The latest value in what a source publishes: the eight bytes from
/// `ENTROPY_OFFSET` on, lowest first.
pub open spec fn entropy_of(data: Seq<u8>) -> Option<u64> {
    if data.len() < 20 {
        None
    } else {
        Some(le_value(data.subrange(12, 20)) as u64)
    }
}

/// Reads the latest value out of what a source publishes, if it is long
/// enough to hold one.
pub fn read_entropy(data: &[u8]) -> (value: Option<u64>)
    ensures
        value == entropy_of(data@),
{
    if data.len() < ENTROPY_OFFSET + 8 {
        None
    } else {
        Some(read_u64_le(data, ENTROPY_OFFSET))
    }
}

} // verus!
