//! The hash oracle boundary. The engine never interprets a digest
//! beyond the target-comparison rule, so an oracle is any type that
//! can produce a 64-bit digest from a nonce and the block header and
//! whose executable digest agrees with its own specification.

use vstd::prelude::*;

use crate::target::nth_le_byte;

verus! {

/// A pure digest function `(nonce, header) -> u64`. Every implementation
/// proves that its executable `digest` returns exactly `digest_spec`.
pub trait HashOracle: Sized {
    /// The mathematical digest of a nonce under a block header.
    spec fn digest_spec(&self, nonce: u64, header: Seq<u8>) -> u64;

    /// Computes the digest of one nonce.
    fn digest(&self, nonce: u64, header: &Vec<u8>) -> (r: u64)
        ensures
            r == self.digest_spec(nonce, header@),
    ;
}

/// Offset basis of the 64-bit FNV-1a mixing function.
pub const FNV_OFFSET: u64 = 0xcbf29ce484222325;

/// Multiplier of the 64-bit FNV-1a mixing function.
pub const FNV_PRIME: u64 = 0x100000001b3;

/// One FNV-1a mixing step: fold one byte into the running state.
pub open spec fn fnv_step(h: u64, b: u8) -> u64 {
    (h ^ (b as u64)).wrapping_mul(FNV_PRIME)
}

/// Left fold of the mixing step over a byte sequence.
pub open spec fn fnv_fold(h: u64, bytes: Seq<u8>) -> u64
    decreases bytes.len(),
{
    if bytes.len() == 0 {
        h
    } else {
        fnv_fold(fnv_step(h, bytes[0]), bytes.skip(1))
    }
}

/// The eight little-endian bytes of a nonce.
pub open spec fn nonce_bytes(nonce: u64) -> Seq<u8> {
    Seq::new(8, |i: int| nth_le_byte(nonce, i))
}

/// Digest of the default oracle: FNV-1a over the header bytes followed
/// by the eight little-endian nonce bytes.
pub open spec fn simple_digest(nonce: u64, header: Seq<u8>) -> u64 {
    fnv_fold(fnv_fold(FNV_OFFSET, header), nonce_bytes(nonce))
}

proof fn lemma_fnv_fold_push(h: u64, s: Seq<u8>, b: u8)
    ensures
        fnv_fold(h, s.push(b)) == fnv_step(fnv_fold(h, s), b),
    decreases s.len(),
{
    if s.len() == 0 {
        assert(s.push(b)[0] == b);
        assert(s.push(b).skip(1) =~= Seq::<u8>::empty());
        assert(fnv_fold(fnv_step(h, b), Seq::<u8>::empty()) == fnv_step(h, b));
        assert(s =~= Seq::<u8>::empty());
    } else {
        assert(s.push(b)[0] == s[0]);
        assert(s.push(b).skip(1) =~= s.skip(1).push(b));
        lemma_fnv_fold_push(fnv_step(h, s[0]), s.skip(1), b);
    }
}

/// Folds the mixing step over every byte of a vector.
fn fnv_fold_exec(h0: u64, bytes: &Vec<u8>) -> (r: u64)
    ensures
        r == fnv_fold(h0, bytes@),
{
    let mut h: u64 = h0;
    let mut i: usize = 0;
    while i < bytes.len()
        invariant
            i <= bytes.len(),
            h == fnv_fold(h0, bytes@.take(i as int)),
        decreases bytes.len() - i,
    {
        let b: u8 = bytes[i];
        proof {
            assert(bytes@.take(i + 1) =~= bytes@.take(i as int).push(b));
            lemma_fnv_fold_push(h0, bytes@.take(i as int), b);
        }
        h = (h ^ (b as u64)).wrapping_mul(FNV_PRIME);
        i = i + 1;
    }
    proof {
        assert(bytes@.take(bytes@.len() as int) =~= bytes@);
    }
    h
}

/// The default, fully verified stand-in digest: a deterministic FNV-1a
/// mix of the header bytes and the nonce. It plays the role of the
/// external proof-of-work hash in a self-contained build; the engine's
/// guarantees do not depend on which oracle is plugged in.
pub struct SimpleOracle;

impl HashOracle for SimpleOracle {
    open spec fn digest_spec(&self, nonce: u64, header: Seq<u8>) -> u64 {
        simple_digest(nonce, header)
    }

    fn digest(&self, nonce: u64, header: &Vec<u8>) -> (r: u64) {
        let mid: u64 = fnv_fold_exec(FNV_OFFSET, header);
        let mut h: u64 = mid;
        let mut j: usize = 0;
        while j < 8
            invariant
                j <= 8,
                h == fnv_fold(mid, nonce_bytes(nonce).take(j as int)),
            decreases 8 - j,
        {
            let shift: u64 = (j as u64) * 8;
            proof {
                assert(((nonce >> shift) & 0xff) < 256) by (bit_vector);
            }
            let b: u8 = ((nonce >> shift) & 0xff) as u8;
            proof {
                assert(b == nonce_bytes(nonce)[j as int]);
                assert(nonce_bytes(nonce).take(j + 1) =~= nonce_bytes(nonce).take(
                    j as int,
                ).push(b));
                lemma_fnv_fold_push(mid, nonce_bytes(nonce).take(j as int), b);
            }
            h = (h ^ (b as u64)).wrapping_mul(FNV_PRIME);
            j = j + 1;
        }
        proof {
            assert(nonce_bytes(nonce).take(8) =~= nonce_bytes(nonce));
        }
        h
    }
}

/// A deterministic oracle defined by an explicit table: a nonce listed in
/// `matching` digests to zero (which satisfies any target), every other
/// nonce digests to `u64::MAX` (which fails any non-trivial target).
/// Intended for driving the engine in tests and dry runs.
pub struct TableOracle {
    pub matching: Vec<u64>,
}

impl HashOracle for TableOracle {
    open spec fn digest_spec(&self, nonce: u64, header: Seq<u8>) -> u64 {
        if self.matching@.contains(nonce) {
            0
        } else {
            u64::MAX
        }
    }

    fn digest(&self, nonce: u64, header: &Vec<u8>) -> (r: u64) {
        let mut i: usize = 0;
        while i < self.matching.len()
            invariant
                i <= self.matching.len(),
                forall|j: int| 0 <= j < i ==> self.matching@[j] != nonce,
            decreases self.matching.len() - i,
        {
            if self.matching[i] == nonce {
                return 0;
            }
            i = i + 1;
        }
        u64::MAX
    }
}

} // verus!
