//! The scanning core of a worker: iterate a work unit's nonce range in
//! batches, call the hash oracle per nonce, stop at the first match,
//! and poll a stop probe between batches so cancellation is observed
//! within one batch of compute.

use vstd::prelude::*;

use vstd::arithmetic::div_mod::lemma_mod_add_multiples_vanish;
use vstd::arithmetic::div_mod::lemma_small_mod;

use crate::clock::micros_between;
use crate::clock::now_micros;
use crate::oracle::HashOracle;
use crate::target::check_target;
use crate::target::meets_target;
use crate::work::MiningResult;
use crate::work::MiningWork;

verus! {

/// Cooperative cancellation, polled between batches. A probe whose
/// `may_stop` is false never requests a stop; of any other probe
/// nothing is known, so scanning must be correct whenever it fires.
pub trait StopProbe: Sized {
    /// Whether this probe can ever request a stop.
    spec fn may_stop(&self) -> bool;

    /// Polls the stop signal once; true requests abandoning the unit.
    fn poll(&mut self) -> (r: bool)
        ensures
            !old(self).may_stop() ==> !r && !final(self).may_stop(),
    ;
}

/// A probe that never requests a stop: scanning runs to completion.
pub struct NeverStop;

impl StopProbe for NeverStop {
    open spec fn may_stop(&self) -> bool {
        false
    }

    fn poll(&mut self) -> (r: bool) {
        false
    }
}

/// A probe that requests a stop after a fixed number of polls; it
/// drives cancellation deterministically in tests.
pub struct CountdownStop {
    pub polls_left: usize,
}

impl StopProbe for CountdownStop {
    open spec fn may_stop(&self) -> bool {
        true
    }

    fn poll(&mut self) -> (r: bool) {
        if self.polls_left == 0 {
            true
        } else {
            self.polls_left = self.polls_left - 1;
            false
        }
    }
}

/// No nonce in `[lo, hi)` digests to a value that satisfies the target.
pub open spec fn no_match<O: HashOracle>(
    oracle: &O,
    header: Seq<u8>,
    target: Seq<u8>,
    lo: int,
    hi: int,
) -> bool {
    forall|m: u64| lo <= m < hi ==> !meets_target(#[trigger] oracle.digest_spec(m, header), target)
}

/// What a scan of `[start, end)` must report: the least nonce of the
/// range whose digest satisfies the target, or `None` exactly when the
/// range holds no match.
pub open spec fn scan_outcome<O: HashOracle>(
    oracle: &O,
    header: Seq<u8>,
    target: Seq<u8>,
    start: u64,
    end: u64,
    r: Option<u64>,
) -> bool {
    match r {
        Some(n) => start <= n < end && meets_target(oracle.digest_spec(n, header), target)
            && no_match(oracle, header, target, start as int, n as int),
        None => no_match(oracle, header, target, start as int, end as int),
    }
}

/// The scan contract pins its result down: any two reports that both
/// satisfy it agree. In particular the vectorized and the scalar
/// strategy can never report different nonces for the same range.
pub proof fn lemma_scan_outcome_unique<O: HashOracle>(
    oracle: &O,
    header: Seq<u8>,
    target: Seq<u8>,
    start: u64,
    end: u64,
    r1: Option<u64>,
    r2: Option<u64>,
)
    requires
        scan_outcome(oracle, header, target, start, end, r1),
        scan_outcome(oracle, header, target, start, end, r2),
    ensures
        r1 == r2,
{
    match (r1, r2) {
        (Some(n1), Some(n2)) => {
            if n1 < n2 {
                assert(!meets_target(oracle.digest_spec(n1, header), target));
            }
            if n2 < n1 {
                assert(!meets_target(oracle.digest_spec(n2, header), target));
            }
        },
        (Some(n1), None) => {
            assert(!meets_target(oracle.digest_spec(n1, header), target));
        },
        (None, Some(n2)) => {
            assert(!meets_target(oracle.digest_spec(n2, header), target));
        },
        (None, None) => {},
    }
}

/// Scalar scan of `[start, end)` in ascending order: returns the least
/// nonce whose digest satisfies the target, or `None` when none does.
pub fn scan_range<O: HashOracle>(
    oracle: &O,
    header: &Vec<u8>,
    target: &Vec<u8>,
    start: u64,
    end: u64,
) -> (r: Option<u64>)
    requires
        start <= end,
    ensures
        scan_outcome(oracle, header@, target@, start, end, r),
{
    let mut nonce: u64 = start;
    while nonce < end
        invariant
            start <= nonce <= end,
            no_match(oracle, header@, target@, start as int, nonce as int),
        decreases end - nonce,
    {
        let d: u64 = oracle.digest(nonce, header);
        if check_target(d, target) {
            return Some(nonce);
        }
        nonce = nonce + 1;
    }
    None
}

/// Evaluates a batch of independent nonces in one call; the digest of
/// each is exactly the oracle's.
pub fn hash_batch<O: HashOracle>(oracle: &O, nonces: &Vec<u64>, header: &Vec<u8>) -> (r: Vec<u64>)
    ensures
        r@.len() == nonces@.len(),
        forall|i: int| 0 <= i < nonces@.len() ==> r@[i] == oracle.digest_spec(nonces@[i], header@),
{
    let mut r: Vec<u64> = Vec::new();
    let mut i: usize = 0;
    while i < nonces.len()
        invariant
            i <= nonces.len(),
            r@.len() == i,
            forall|j: int| 0 <= j < i ==> r@[j] == oracle.digest_spec(nonces@[j], header@),
        decreases nonces.len() - i,
    {
        let d: u64 = oracle.digest(nonces[i], header);
        r.push(d);
        i = i + 1;
    }
    r
}

/// Vectorized scan of `[start, end)`: evaluates four independent nonces
/// per oracle call and falls back to the scalar path for the remaining
/// sub-batch. Its contract is the same as `scan_range`'s, so the fast
/// path can never change which nonce is reported.
pub fn scan_range_batched<O: HashOracle>(
    oracle: &O,
    header: &Vec<u8>,
    target: &Vec<u8>,
    start: u64,
    end: u64,
) -> (r: Option<u64>)
    requires
        start <= end,
    ensures
        scan_outcome(oracle, header@, target@, start, end, r),
{
    let mut nonce: u64 = start;
    while end - nonce >= 4
        invariant
            start <= nonce <= end,
            no_match(oracle, header@, target@, start as int, nonce as int),
        decreases end - nonce,
    {
        let mut batch: Vec<u64> = Vec::new();
        batch.push(nonce);
        batch.push(nonce + 1);
        batch.push(nonce + 2);
        batch.push(nonce + 3);
        let digests: Vec<u64> = hash_batch(oracle, &batch, header);
        let mut k: usize = 0;
        while k < 4
            invariant
                k <= 4,
                start <= nonce,
                nonce + 4 <= end,
                digests@.len() == 4,
                forall|j: int|
                    0 <= j < 4 ==> digests@[j] == oracle.digest_spec(
                        (nonce + j) as u64,
                        header@,
                    ),
                no_match(oracle, header@, target@, start as int, nonce + k),
            decreases 4 - k,
        {
            if check_target(digests[k], target) {
                return Some(nonce + (k as u64));
            }
            k = k + 1;
        }
        nonce = nonce + 4;
    }
    let tail: Option<u64> = scan_range(oracle, header, target, nonce, end);
    match tail {
        Some(n) => Some(n),
        None => None,
    }
}

/// Scans one work unit in batches of `batch_size`, polling the stop
/// probe before every batch.
///
/// The result is pinned down exactly:
/// - a found nonce is the least match of the unit's range, and the hash
///   count is its 1-based position in scan order;
/// - with no match, the scanned prefix is match-free, and the unit was
///   either exhausted (`hashes_computed == nonce_range`) or abandoned
///   at a batch boundary;
/// - a probe that cannot stop always scans the whole range.
///
/// The vectorized and the scalar strategy satisfy the same contract,
/// so they are observably equivalent in result.
pub fn process_work<O: HashOracle, P: StopProbe>(
    oracle: &O,
    work: &MiningWork,
    thread_id: usize,
    batch_size: usize,
    vectorized: bool,
    probe: &mut P,
) -> (r: MiningResult)
    requires
        batch_size >= 1,
        work.wf(),
    ensures
        r.thread_id == thread_id,
        r.hashes_computed <= work.nonce_range,
        match r.nonce {
            Some(n) => {
                &&& work.start_nonce <= n < work.start_nonce + work.nonce_range
                &&& meets_target(oracle.digest_spec(n, work.block_header@), work.target@)
                &&& no_match(
                    oracle,
                    work.block_header@,
                    work.target@,
                    work.start_nonce as int,
                    n as int,
                )
                &&& r.hashes_computed == n - work.start_nonce + 1
            },
            None => {
                &&& no_match(
                    oracle,
                    work.block_header@,
                    work.target@,
                    work.start_nonce as int,
                    work.start_nonce + r.hashes_computed,
                )
                &&& (r.hashes_computed == work.nonce_range || r.hashes_computed as int
                    % batch_size as int == 0)
            },
        },
        !old(probe).may_stop() && r.nonce is None ==> r.hashes_computed == work.nonce_range,
{
    let t0: u64 = now_micros();
    let end: u64 = work.start_nonce + work.nonce_range;
    let mut current: u64 = work.start_nonce;
    proof {
        lemma_small_mod(0nat, batch_size as nat);
    }
    while current < end
        invariant
            work.start_nonce <= current <= end,
            end == work.start_nonce + work.nonce_range,
            batch_size >= 1,
            no_match(
                oracle,
                work.block_header@,
                work.target@,
                work.start_nonce as int,
                current as int,
            ),
            (current - work.start_nonce) as int % batch_size as int == 0 || current == end,
            !old(probe).may_stop() ==> !probe.may_stop(),
        decreases end - current,
    {
        if probe.poll() {
            let hashes: u64 = current - work.start_nonce;
            let t1: u64 = now_micros();
            return MiningResult {
                thread_id,
                nonce: None,
                hashes_computed: hashes,
                elapsed_micros: micros_between(t0, t1),
            };
        }
        let batch_end: u64 = if end - current > batch_size as u64 {
            current + batch_size as u64
        } else {
            end
        };
        let found: Option<u64> = if vectorized {
            scan_range_batched(oracle, &work.block_header, &work.target, current, batch_end)
        } else {
            scan_range(oracle, &work.block_header, &work.target, current, batch_end)
        };
        match found {
            Some(n) => {
                let hashes: u64 = (n - work.start_nonce) + 1;
                let t1: u64 = now_micros();
                return MiningResult {
                    thread_id,
                    nonce: Some(n),
                    hashes_computed: hashes,
                    elapsed_micros: micros_between(t0, t1),
                };
            },
            None => {
                proof {
                    lemma_mod_add_multiples_vanish(
                        (current - work.start_nonce) as int,
                        batch_size as int,
                    );
                }
                current = batch_end;
            },
        }
    }
    let t1: u64 = now_micros();
    MiningResult {
        thread_id,
        nonce: None,
        hashes_computed: work.nonce_range,
        elapsed_micros: micros_between(t0, t1),
    }
}

} // verus!
