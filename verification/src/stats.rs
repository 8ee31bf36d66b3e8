//! Telemetry for one mining session: a cumulative hash counter, one
//! per-worker slot holding the count of that worker's last reported
//! unit (overwritten on each report, by design), and the session start
//! time for rate computation. The counters are advisory: they never
//! feed a correctness decision of the engine.

use vstd::prelude::*;

use vstd::pervasive::VecAdditionalExecFns;

use crate::clock::micros_between;
use crate::clock::now_micros;

verus! {

/// Crediting a unit to the total: saturating, so the counter is
/// monotonic and never wraps.
pub open spec fn sat_add(total: u64, count: u64) -> u64 {
    if total + count > u64::MAX {
        u64::MAX
    } else {
        (total + count) as u64
    }
}

/// Sum of the hash counts a sequence of completed units reported.
pub open spec fn sum_hashes(counts: Seq<u64>) -> int
    decreases counts.len(),
{
    if counts.len() == 0 {
        0
    } else {
        counts[0] + sum_hashes(counts.skip(1))
    }
}

/// The total counter after crediting a sequence of units in order.
pub open spec fn total_after(total: u64, counts: Seq<u64>) -> u64
    decreases counts.len(),
{
    if counts.len() == 0 {
        total
    } else {
        total_after(sat_add(total, counts[0]), counts.skip(1))
    }
}

proof fn lemma_sum_nonneg(counts: Seq<u64>)
    ensures
        sum_hashes(counts) >= 0,
    decreases counts.len(),
{
    if counts.len() > 0 {
        lemma_sum_nonneg(counts.skip(1));
    }
}

/// Telemetry additivity: as long as the counter does not saturate, the
/// cumulative hash count after any number of completed units is
/// exactly the sum of the counts those units reported.
pub proof fn lemma_telemetry_additive(total: u64, counts: Seq<u64>)
    requires
        total + sum_hashes(counts) <= u64::MAX,
    ensures
        total_after(total, counts) == total + sum_hashes(counts),
    decreases counts.len(),
{
    if counts.len() > 0 {
        lemma_sum_nonneg(counts.skip(1));
        lemma_telemetry_additive(sat_add(total, counts[0]), counts.skip(1));
    }
}

/// The total counter only ever increases.
pub proof fn lemma_total_monotonic(total: u64, count: u64)
    ensures
        sat_add(total, count) >= total,
{
}

/// Per-session mining telemetry.
pub struct MiningStats {
    /// Total digests computed this session; monotonic, saturating.
    pub total_hashes: u64,
    /// Hash count of each worker's last reported unit.
    pub thread_hashrates: Vec<u64>,
    /// Session start, in microseconds since the UNIX epoch.
    pub start_micros: u64,
}

/// Integer hashrate in digests per second: `total` hashes over
/// `elapsed_micros` microseconds, zero before any time has passed,
/// saturated to `u64`.
pub open spec fn hashrate_spec(total: u64, elapsed_micros: u64) -> u64 {
    if elapsed_micros == 0 {
        0
    } else if total * 1_000_000 / (elapsed_micros as int) > u64::MAX {
        u64::MAX
    } else {
        (total * 1_000_000 / (elapsed_micros as int)) as u64
    }
}

/// Computes the integer hashrate from a counter value and an elapsed
/// time handed in by the caller.
pub fn hashrate(total: u64, elapsed_micros: u64) -> (r: u64)
    ensures
        r == hashrate_spec(total, elapsed_micros),
{
    if elapsed_micros == 0 {
        return 0;
    }
    proof {
        assert((total as u128) * 1_000_000 <= (u64::MAX as u128) * 1_000_000) by (nonlinear_arith)
            requires
                total <= u64::MAX,
        ;
    }
    let wide: u128 = (total as u128) * 1_000_000u128 / (elapsed_micros as u128);
    if wide > u64::MAX as u128 {
        u64::MAX
    } else {
        wide as u64
    }
}

impl MiningStats {
    /// Fresh telemetry for a pool of `num_threads` workers: zero
    /// counters and the session clock started now.
    pub fn new(num_threads: usize) -> (r: Self)
        ensures
            r.total_hashes == 0,
            r.thread_hashrates@.len() == num_threads,
            forall|i: int| 0 <= i < num_threads ==> r.thread_hashrates@[i] == 0,
    {
        let mut slots: Vec<u64> = Vec::new();
        let mut i: usize = 0;
        while i < num_threads
            invariant
                i <= num_threads,
                slots@.len() == i,
                forall|j: int| 0 <= j < i ==> slots@[j] == 0,
            decreases num_threads - i,
        {
            slots.push(0);
            i = i + 1;
        }
        MiningStats { total_hashes: 0, thread_hashrates: slots, start_micros: now_micros() }
    }

    /// Credits one completed unit: adds `count` to the total
    /// (saturating) and overwrites the reporting worker's slot.
    pub fn add_hashes(&mut self, thread_id: usize, count: u64)
        requires
            thread_id < old(self).thread_hashrates@.len(),
        ensures
            final(self).total_hashes == sat_add(old(self).total_hashes, count),
            final(self).thread_hashrates@ == old(self).thread_hashrates@.update(
                thread_id as int,
                count,
            ),
            final(self).start_micros == old(self).start_micros,
    {
        self.total_hashes = self.total_hashes.saturating_add(count);
        self.thread_hashrates.set(thread_id, count);
    }

    /// The cumulative hash count.
    pub fn get_total_hashes(&self) -> (r: u64)
        ensures
            r == self.total_hashes,
    {
        self.total_hashes
    }

    /// The session's average hashrate in digests per second, computed
    /// from the wall clock; the elapsed time is whatever the clock
    /// showed, so only the formula is promised.
    pub fn get_total_hashrate(&self) -> (r: u64)
        ensures
            exists|elapsed: u64| r == hashrate_spec(self.total_hashes, elapsed),
    {
        let now: u64 = now_micros();
        let elapsed: u64 = micros_between(self.start_micros, now);
        let r = hashrate(self.total_hashes, elapsed);
        proof {
            assert(r == hashrate_spec(self.total_hashes, elapsed));
        }
        r
    }
}

} // verus!
