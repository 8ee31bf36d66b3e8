//! Work units and nonce-space partitioning.
//!
//! One mining round over a nonce space `[0, space)` is split into one
//! contiguous unit per worker. Every unit but the last owns
//! `space / num_threads` nonces; the last also owns the division
//! remainder, so the units cover the space exactly, with no gap and no
//! overlap. A round over the full 64-bit space uses
//! `space == u64::MAX`: the single topmost nonce is left out, since a
//! range of `2^64` nonces has no representable length — a documented
//! boundary of the engine, not an accident of truncation.

use vstd::prelude::*;

use vstd::arithmetic::div_mod::lemma_fundamental_div_mod;
use vstd::arithmetic::div_mod::lemma_mod_division_less_than_divisor;

verus! {

/// A contiguous nonce sub-range assigned to one worker for one round,
/// together with the header and target it is searched under.
pub struct MiningWork {
    pub block_header: Vec<u8>,
    pub target: Vec<u8>,
    pub start_nonce: u64,
    pub nonce_range: u64,
}

impl MiningWork {
    /// The owned range stays inside the 64-bit nonce space.
    pub open spec fn wf(&self) -> bool {
        self.start_nonce + self.nonce_range <= u64::MAX
    }
}

/// What one worker reports for one unit: the owning worker, the found
/// nonce if any, how many digests were actually computed, and how long
/// the unit took. A `None` nonce with `hashes_computed` below the
/// unit's range means the unit was abandoned on cancellation.
#[derive(Clone, Copy, Debug)]
pub struct MiningResult {
    pub thread_id: usize,
    pub nonce: Option<u64>,
    pub hashes_computed: u64,
    pub elapsed_micros: u64,
}

/// Nonces owned by every unit but the last: the truncated quotient.
pub open spec fn base_len(space: u64, n: int) -> int {
    space as int / n
}

/// First nonce of unit `i`.
pub open spec fn unit_start(space: u64, n: int, i: int) -> int {
    i * base_len(space, n)
}

/// Nonce count of unit `i`; the last unit also takes the remainder.
pub open spec fn unit_len(space: u64, n: int, i: int) -> int {
    if i < n - 1 {
        base_len(space, n)
    } else {
        space - (n - 1) * base_len(space, n)
    }
}

/// Nonce `nonce` belongs to unit `i` of the partition.
pub open spec fn in_unit(space: u64, n: int, i: int, nonce: int) -> bool {
    unit_start(space, n, i) <= nonce < unit_start(space, n, i) + unit_len(space, n, i)
}

/// Every unit sits inside `[0, space)`, and the last one ends exactly
/// at `space`.
pub proof fn lemma_unit_bounds(space: u64, n: int, i: int)
    requires
        1 <= n,
        0 <= i < n,
    ensures
        0 <= unit_start(space, n, i),
        0 <= unit_len(space, n, i),
        unit_start(space, n, i) + unit_len(space, n, i) <= space,
        i == n - 1 ==> unit_start(space, n, i) + unit_len(space, n, i) == space,
{
    let b = base_len(space, n);
    lemma_fundamental_div_mod(space as int, n);
    lemma_mod_division_less_than_divisor(space as int, n);
    assert(0 <= b) by (nonlinear_arith)
        requires
            n >= 1,
            space as int == n * b + space as int % n,
            0 <= space as int % n,
            0 <= space as int,
    ;
    assert(0 <= i * b && (i + 1) * b <= n * b) by (nonlinear_arith)
        requires
            0 <= i,
            i + 1 <= n,
            0 <= b,
    ;
    assert(n * b <= space) by {
        lemma_fundamental_div_mod(space as int, n);
        lemma_mod_division_less_than_divisor(space as int, n);
    }
    assert((n - 1) * b == n * b - b) by (nonlinear_arith);
    if i < n - 1 {
        assert((i + 1) * b == i * b + b) by (nonlinear_arith);
        assert(i * b + b <= (n - 1) * b) by (nonlinear_arith)
            requires
                i + 1 <= n - 1,
                0 <= b,
        ;
    }
}

/// Coverage: every nonce of `[0, space)` lies in some unit.
pub proof fn lemma_partition_covers(space: u64, n: int, nonce: int)
    requires
        1 <= n,
        0 <= nonce < space,
    ensures
        exists|i: int| 0 <= i < n && in_unit(space, n, i, nonce),
{
    let b = base_len(space, n);
    lemma_fundamental_div_mod(space as int, n);
    lemma_mod_division_less_than_divisor(space as int, n);
    assert(0 <= b) by (nonlinear_arith)
        requires
            n >= 1,
            space as int == n * b + space as int % n,
            0 <= space as int % n,
            0 <= space as int,
    ;
    if b == 0 {
        lemma_unit_bounds(space, n, n - 1);
        assert((n - 1) * b == 0) by (nonlinear_arith)
            requires
                b == 0,
        ;
        assert(in_unit(space, n, n - 1, nonce));
    } else {
        let q = nonce / b;
        lemma_fundamental_div_mod(nonce, b);
        lemma_mod_division_less_than_divisor(nonce, b);
        assert(0 <= q) by (nonlinear_arith)
            requires
                nonce == b * q + nonce % b,
                0 <= nonce % b < b,
                0 <= nonce,
                b >= 1,
        ;
        if q < n - 1 {
            assert(q * b <= nonce < (q + 1) * b) by (nonlinear_arith)
                requires
                    nonce == b * q + nonce % b,
                    0 <= nonce % b < b,
            ;
            assert((q + 1) * b == q * b + b) by (nonlinear_arith);
            assert(in_unit(space, n, q, nonce));
        } else {
            lemma_unit_bounds(space, n, n - 1);
            assert((n - 1) * b <= q * b) by (nonlinear_arith)
                requires
                    n - 1 <= q,
                    0 <= b,
            ;
            assert(q * b <= nonce) by (nonlinear_arith)
                requires
                    nonce == b * q + nonce % b,
                    0 <= nonce % b,
            ;
            assert(in_unit(space, n, n - 1, nonce));
        }
    }
}

/// Disjointness: no nonce lies in two different units.
pub proof fn lemma_partition_disjoint(space: u64, n: int, i: int, j: int, nonce: int)
    requires
        1 <= n,
        0 <= i < n,
        0 <= j < n,
        i != j,
        in_unit(space, n, i, nonce),
    ensures
        !in_unit(space, n, j, nonce),
{
    let b = base_len(space, n);
    lemma_unit_bounds(space, n, i);
    lemma_unit_bounds(space, n, j);
    if i < j {
        // the whole of unit i ends at or before unit j begins
        assert((i + 1) * b <= j * b) by (nonlinear_arith)
            requires
                i + 1 <= j,
                0 <= b,
        ;
        assert((i + 1) * b == i * b + b) by (nonlinear_arith);
    } else {
        assert((j + 1) * b <= i * b) by (nonlinear_arith)
            requires
                j + 1 <= i,
                0 <= b,
        ;
        assert((j + 1) * b == j * b + b) by (nonlinear_arith);
    }
}

/// Byte-for-byte copy of a vector.
pub fn copy_bytes(src: &Vec<u8>) -> (r: Vec<u8>)
    ensures
        r@ == src@,
{
    let mut r: Vec<u8> = Vec::new();
    let mut i: usize = 0;
    proof {
        assert(r@ =~= src@.take(0));
    }
    while i < src.len()
        invariant
            i <= src.len(),
            r@ == src@.take(i as int),
        decreases src.len() - i,
    {
        r.push(src[i]);
        proof {
            assert(src@.take(i + 1) =~= src@.take(i as int).push(src@[i as int]));
        }
        i = i + 1;
    }
    proof {
        assert(src@.take(src@.len() as int) =~= src@);
    }
    r
}

/// Partitions `[0, space)` into `num_threads` contiguous units: unit
/// `i` starts at `i * (space / num_threads)`; every unit owns the
/// truncated quotient of nonces and the last also owns the remainder,
/// so together they cover the space exactly once
/// (`lemma_partition_covers`, `lemma_partition_disjoint`).
pub fn make_work_units(
    block_header: &Vec<u8>,
    target: &Vec<u8>,
    num_threads: usize,
    space: u64,
) -> (units: Vec<MiningWork>)
    requires
        num_threads >= 1,
    ensures
        units@.len() == num_threads,
        forall|i: int|
            0 <= i < num_threads ==> (#[trigger] units@[i]).start_nonce == unit_start(
                space,
                num_threads as int,
                i,
            ),
        forall|i: int|
            0 <= i < num_threads ==> (#[trigger] units@[i]).nonce_range == unit_len(
                space,
                num_threads as int,
                i,
            ),
        forall|i: int| 0 <= i < num_threads ==> (#[trigger] units@[i]).block_header@
            == block_header@,
        forall|i: int| 0 <= i < num_threads ==> (#[trigger] units@[i]).target@ == target@,
        forall|i: int| 0 <= i < num_threads ==> (#[trigger] units@[i]).wf(),
{
    let base: u64 = space / (num_threads as u64);
    let mut units: Vec<MiningWork> = Vec::new();
    let mut i: usize = 0;
    while i < num_threads
        invariant
            i <= num_threads,
            num_threads >= 1,
            units@.len() == i,
            base == base_len(space, num_threads as int),
            forall|k: int|
                0 <= k < i ==> (#[trigger] units@[k]).start_nonce == unit_start(
                    space,
                    num_threads as int,
                    k,
                ),
            forall|k: int|
                0 <= k < i ==> (#[trigger] units@[k]).nonce_range == unit_len(
                    space,
                    num_threads as int,
                    k,
                ),
            forall|k: int| 0 <= k < i ==> (#[trigger] units@[k]).block_header@
                == block_header@,
            forall|k: int| 0 <= k < i ==> (#[trigger] units@[k]).target@ == target@,
            forall|k: int| 0 <= k < i ==> (#[trigger] units@[k]).wf(),
        decreases num_threads - i,
    {
        proof {
            lemma_unit_bounds(space, num_threads as int, i as int);
        }
        let start: u64 = (i as u64) * base;
        let len: u64 = if i + 1 == num_threads {
            space - start
        } else {
            base
        };
        let unit = MiningWork {
            block_header: copy_bytes(block_header),
            target: copy_bytes(target),
            start_nonce: start,
            nonce_range: len,
        };
        units.push(unit);
        i = i + 1;
    }
    units
}

} // verus!
