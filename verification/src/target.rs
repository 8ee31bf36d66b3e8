//! Target comparison: a digest meets the difficulty target when its
//! little-endian bytes, compared over the first `min(target.len(), 8)`
//! positions, are byte-wise less than or equal to the target bytes.

use vstd::prelude::*;

verus! {

/// Byte `i` (little-endian) of a 64-bit digest.
pub open spec fn nth_le_byte(h: u64, i: int) -> u8 {
    ((h >> ((i * 8) as u64)) & 0xff) as u8
}

/// How many byte positions the comparison inspects: the target length,
/// capped at the eight bytes a 64-bit digest has.
pub open spec fn cmp_len(target: Seq<u8>) -> int {
    if target.len() < 8 {
        target.len() as int
    } else {
        8
    }
}

/// Unsigned lexicographic "less than or equal" between the digest bytes
/// and the target bytes, decided from position `i` onward.
pub open spec fn le_from(h: u64, target: Seq<u8>, i: int) -> bool
    decreases cmp_len(target) - i,
{
    if i >= cmp_len(target) {
        true
    } else if nth_le_byte(h, i) < target[i] {
        true
    } else if nth_le_byte(h, i) > target[i] {
        false
    } else {
        le_from(h, target, i + 1)
    }
}

/// A digest satisfies the target when its compared prefix is
/// lexicographically less than or equal to the target's.
pub open spec fn meets_target(h: u64, target: Seq<u8>) -> bool {
    le_from(h, target, 0)
}

/// Compares a digest against the target bytes, little-endian, over the
/// compared prefix; an empty target accepts every digest.
pub fn check_target(hash: u64, target: &Vec<u8>) -> (r: bool)
    ensures
        r == meets_target(hash, target@),
{
    let n: usize = if target.len() < 8 {
        target.len()
    } else {
        8
    };
    let mut i: usize = 0;
    while i < n
        invariant
            i <= n,
            n == cmp_len(target@),
            meets_target(hash, target@) == le_from(hash, target@, i as int),
        decreases n - i,
    {
        let shift: u64 = (i as u64) * 8;
        proof {
            assert(((hash >> shift) & 0xff) < 256) by (bit_vector);
        }
        let hb: u8 = ((hash >> shift) & 0xff) as u8;
        let tb: u8 = target[i];
        if hb < tb {
            return true;
        }
        if hb > tb {
            return false;
        }
        i = i + 1;
    }
    true
}

} // verus!
