//! The pool manager, as a sequential protocol engine: it owns the
//! bounded work queue, partitions the nonce space into one unit per
//! worker, runs units through the verified scanning core, aggregates
//! telemetry, and honours the write-once stop signal. A threaded host
//! runs the same protocol by spawning one worker per thread around
//! `process_work`; this engine is the specification of what those
//! workers and their channels must deliver.

use vstd::prelude::*;

use vstd::arithmetic::div_mod::lemma_mod_self_0;
use vstd::arithmetic::div_mod::lemma_small_mod;

use crate::config::ConfigError;
use crate::config::OptimizedMiningConfig;
use crate::oracle::HashOracle;
use crate::stats::hashrate_spec;
use crate::stats::sat_add;
use crate::stats::MiningStats;
use crate::target::meets_target;
use crate::work::make_work_units;
use crate::work::unit_len;
use crate::work::unit_start;
use crate::work::MiningResult;
use crate::work::MiningWork;
use crate::worker::no_match;
use crate::worker::process_work;
use crate::worker::NeverStop;

verus! {

/// Errors of a running pool.
#[derive(Clone, Copy, Debug, PartialEq, Eq, Structural)]
pub enum MiningError {
    /// The pool was stopped: its workers are gone, so no more work is
    /// accepted.
    ChannelClosed,
    /// The bounded work queue has no room for another full round.
    QueueFull,
}

/// What the engine guarantees of one completed unit's result: the
/// report names the worker it was assigned to, a found nonce is the
/// least match of the unit's range with the hash count its 1-based
/// position, and a unit reported without a nonce was scanned whole and
/// holds no match at all.
pub open spec fn unit_outcome<O: HashOracle>(
    oracle: O,
    w: MiningWork,
    tid: int,
    res: MiningResult,
) -> bool {
    &&& res.thread_id == tid
    &&& match res.nonce {
        Some(n) => {
            &&& w.start_nonce <= n < w.start_nonce + w.nonce_range
            &&& meets_target(oracle.digest_spec(n, w.block_header@), w.target@)
            &&& no_match(&oracle, w.block_header@, w.target@, w.start_nonce as int, n as int)
            &&& res.hashes_computed == n - w.start_nonce + 1
        },
        None => {
            &&& res.hashes_computed == w.nonce_range
            &&& no_match(
                &oracle,
                w.block_header@,
                w.target@,
                w.start_nonce as int,
                w.start_nonce + w.nonce_range,
            )
        },
    }
}

/// A worker pool over one hash oracle.
pub struct OptimizedMiningManager<O: HashOracle> {
    config: OptimizedMiningConfig,
    stats: MiningStats,
    stop_signal: bool,
    oracle: O,
    pending: Vec<MiningWork>,
    next_thread: usize,
}

impl<O: HashOracle> OptimizedMiningManager<O> {
    /// The pool's configuration, fixed at construction.
    pub closed spec fn config_spec(&self) -> OptimizedMiningConfig {
        self.config
    }

    /// The oracle every unit is scanned under.
    pub closed spec fn oracle_spec(&self) -> O {
        self.oracle
    }

    /// Whether shutdown was requested; write-once per session.
    pub closed spec fn stopped(&self) -> bool {
        self.stop_signal
    }

    /// The bounded work queue, in issue order.
    pub closed spec fn pending_units(&self) -> Seq<MiningWork> {
        self.pending@
    }

    /// Cumulative hash count of the session.
    pub closed spec fn total_hashes(&self) -> u64 {
        self.stats.total_hashes
    }

    /// Per-worker hash count of the last reported unit.
    pub closed spec fn worker_slots(&self) -> Seq<u64> {
        self.stats.thread_hashrates@
    }

    /// The worker the next unit is assigned to, cycling round-robin.
    pub closed spec fn next_thread_spec(&self) -> int {
        self.next_thread as int
    }

    /// Pool invariant: a valid configuration, one telemetry slot per
    /// worker, a next-worker cursor in range, a work queue within its
    /// bound of two units per worker, and only well-formed units.
    pub closed spec fn wf(&self) -> bool {
        &&& self.config.wf()
        &&& self.stats.thread_hashrates@.len() == self.config.num_threads
        &&& self.next_thread < self.config.num_threads
        &&& self.pending@.len() <= 2 * self.config.num_threads
        &&& forall|i: int| 0 <= i < self.pending@.len() ==> (#[trigger] self.pending@[i]).wf()
    }

    /// The state after a shutdown request: the stop signal set, all
    /// else untouched.
    pub closed spec fn after_stop(&self) -> Self {
        OptimizedMiningManager { stop_signal: true, ..*self }
    }

    /// Builds a pool: validates the configuration (the only fatal
    /// path), creates fresh telemetry and an unset stop signal, and
    /// owns an empty work queue for `num_threads` workers.
    pub fn new(config: OptimizedMiningConfig, oracle: O) -> (r: Result<Self, ConfigError>)
        ensures
            r is Ok <==> config.wf(),
            r matches Ok(m) ==> {
                &&& m.wf()
                &&& m.config_spec() == config
                &&& m.oracle_spec() == oracle
                &&& !m.stopped()
                &&& m.pending_units().len() == 0
                &&& m.total_hashes() == 0
                &&& m.worker_slots().len() == config.num_threads
                &&& forall|i: int| 0 <= i < config.num_threads ==> m.worker_slots()[i] == 0
                &&& m.next_thread_spec() == 0
            },
            r matches Err(e) ==> {
                &&& (e == ConfigError::ZeroThreads <==> config.num_threads == 0)
                &&& (e == ConfigError::ZeroBatchSize <==> config.num_threads >= 1
                    && config.batch_size == 0)
                &&& (e == ConfigError::NoNumaNodes <==> config.num_threads >= 1
                    && config.batch_size >= 1 && config.thread_affinity
                    && config.numa_nodes@.len() == 0)
            },
    {
        match config.validate() {
            Err(e) => Err(e),
            Ok(()) => {
                let stats = MiningStats::new(config.num_threads);
                Ok(
                    OptimizedMiningManager {
                        config,
                        stats,
                        stop_signal: false,
                        oracle,
                        pending: Vec::new(),
                        next_thread: 0,
                    },
                )
            },
        }
    }

    /// Issues one mining round over the nonce space `[0, space)`: one
    /// unit per worker, partitioned as `make_work_units` states, all
    /// appended to the work queue in worker order. Fails without
    /// touching the queue when the pool was stopped (its workers are
    /// gone) or when a full round would overflow the queue bound.
    pub fn start_mining_over(
        &mut self,
        block_header: Vec<u8>,
        target: Vec<u8>,
        space: u64,
    ) -> (r: Result<(), MiningError>)
        requires
            old(self).wf(),
        ensures
            final(self).wf(),
            final(self).config_spec() == old(self).config_spec(),
            final(self).oracle_spec() == old(self).oracle_spec(),
            final(self).stopped() == old(self).stopped(),
            final(self).total_hashes() == old(self).total_hashes(),
            final(self).worker_slots() == old(self).worker_slots(),
            final(self).next_thread_spec() == old(self).next_thread_spec(),
            r is Ok <==> !old(self).stopped() && old(self).pending_units().len() + old(self).config_spec().num_threads <= 2 * old(self).config_spec().num_threads,
            r == Err::<(), MiningError>(MiningError::ChannelClosed) <==> old(self).stopped(),
            r is Err ==> final(self).pending_units() == old(self).pending_units(),
            r is Ok ==> {
                let n = old(self).config_spec().num_threads;
                let before = old(self).pending_units();
                let after = final(self).pending_units();
                &&& after.len() == before.len() + n
                &&& forall|i: int| 0 <= i < before.len() ==> after[i] == before[i]
                &&& forall|i: int|
                    0 <= i < n ==> (#[trigger] after[before.len() + i]).start_nonce == unit_start(
                        space,
                        n as int,
                        i,
                    )
                &&& forall|i: int|
                    0 <= i < n ==> (#[trigger] after[before.len() + i]).nonce_range == unit_len(
                        space,
                        n as int,
                        i,
                    )
                &&& forall|i: int| 0 <= i < n ==> (#[trigger] after[before.len()
                    + i]).block_header@ == block_header@
                &&& forall|i: int| 0 <= i < n ==> (#[trigger] after[before.len() + i]).target@
                    == target@
            },
    {
        if self.stop_signal {
            return Err(MiningError::ChannelClosed);
        }
        if self.pending.len() > self.config.num_threads {
            return Err(MiningError::QueueFull);
        }
        let mut units = make_work_units(&block_header, &target, self.config.num_threads, space);
        self.pending.append(&mut units);
        Ok(())
    }

    /// Issues one mining round over the engine's full nonce space,
    /// `[0, u64::MAX)`: every 64-bit nonce but the single topmost one,
    /// the documented boundary of the partition.
    pub fn start_mining(&mut self, block_header: Vec<u8>, target: Vec<u8>) -> (r: Result<
        (),
        MiningError,
    >)
        requires
            old(self).wf(),
        ensures
            final(self).wf(),
            final(self).config_spec() == old(self).config_spec(),
            final(self).oracle_spec() == old(self).oracle_spec(),
            final(self).stopped() == old(self).stopped(),
            final(self).total_hashes() == old(self).total_hashes(),
            final(self).worker_slots() == old(self).worker_slots(),
            final(self).next_thread_spec() == old(self).next_thread_spec(),
            r is Ok <==> !old(self).stopped() && old(self).pending_units().len() + old(self).config_spec().num_threads <= 2 * old(self).config_spec().num_threads,
            r == Err::<(), MiningError>(MiningError::ChannelClosed) <==> old(self).stopped(),
            r is Err ==> final(self).pending_units() == old(self).pending_units(),
            r is Ok ==> {
                let n = old(self).config_spec().num_threads;
                let before = old(self).pending_units();
                let after = final(self).pending_units();
                &&& after.len() == before.len() + n
                &&& forall|i: int| 0 <= i < before.len() ==> after[i] == before[i]
                &&& forall|i: int|
                    0 <= i < n ==> (#[trigger] after[before.len() + i]).start_nonce == unit_start(
                        u64::MAX,
                        n as int,
                        i,
                    )
                &&& forall|i: int|
                    0 <= i < n ==> (#[trigger] after[before.len() + i]).nonce_range == unit_len(
                        u64::MAX,
                        n as int,
                        i,
                    )
                &&& forall|i: int| 0 <= i < n ==> (#[trigger] after[before.len()
                    + i]).block_header@ == block_header@
                &&& forall|i: int| 0 <= i < n ==> (#[trigger] after[before.len() + i]).target@
                    == target@
            },
    {
        self.start_mining_over(block_header, target, u64::MAX)
    }

    /// Requests shutdown: sets the stop signal and nothing else. It
    /// never resets within a session and does not wait for workers to
    /// drain, so calling it again is a no-op (`lemma_stop_idempotent`).
    pub fn stop_mining(&mut self)
        ensures
            *final(self) == old(self).after_stop(),
            final(self).stopped(),
            old(self).wf() ==> final(self).wf(),
            final(self).config_spec() == old(self).config_spec(),
            final(self).oracle_spec() == old(self).oracle_spec(),
            final(self).pending_units() == old(self).pending_units(),
            final(self).total_hashes() == old(self).total_hashes(),
            final(self).worker_slots() == old(self).worker_slots(),
            final(self).next_thread_spec() == old(self).next_thread_spec(),
    {
        self.stop_signal = true;
    }

    /// Idempotent stop: a second shutdown request leaves exactly the
    /// state the first one produced.
    pub proof fn lemma_stop_idempotent(m: OptimizedMiningManager<O>)
        ensures
            m.after_stop().after_stop() == m.after_stop(),
    {
    }

    /// The pool's telemetry: `(average hashrate, cumulative hashes)`.
    /// The count is exact; the rate follows the hashrate formula for
    /// whatever elapsed time the wall clock showed.
    pub fn get_stats(&self) -> (r: (u64, u64))
        ensures
            r.1 == self.total_hashes(),
            exists|elapsed: u64| r.0 == hashrate_spec(self.total_hashes(), elapsed),
    {
        let rate: u64 = self.stats.get_total_hashrate();
        let total: u64 = self.stats.get_total_hashes();
        (rate, total)
    }

    /// Delivers the next Result, a polling primitive: on a stopped or
    /// idle pool there is nothing to wait for and it returns `None`
    /// (the caller's timeout elapsing); otherwise the front unit of the
    /// work queue is scanned to completion by the next worker in the
    /// cycle, its hashes are credited to telemetry, and its report is
    /// returned, pinned down by `unit_outcome`.
    pub fn wait_for_result(&mut self, timeout_millis: u64) -> (r: Option<MiningResult>)
        requires
            old(self).wf(),
        ensures
            final(self).wf(),
            final(self).config_spec() == old(self).config_spec(),
            final(self).oracle_spec() == old(self).oracle_spec(),
            final(self).stopped() == old(self).stopped(),
            (old(self).stopped() || old(self).pending_units().len() == 0) ==> r is None
                && *final(self) == *old(self),
            !old(self).stopped() && old(self).pending_units().len() > 0 ==> match r {
                Some(res) => {
                    &&& unit_outcome(
                        old(self).oracle_spec(),
                        old(self).pending_units()[0],
                        old(self).next_thread_spec(),
                        res,
                    )
                    &&& final(self).pending_units() == old(self).pending_units().skip(1)
                    &&& final(self).total_hashes() == sat_add(
                        old(self).total_hashes(),
                        res.hashes_computed,
                    )
                    &&& final(self).worker_slots() == old(self).worker_slots().update(
                        old(self).next_thread_spec(),
                        res.hashes_computed,
                    )
                    &&& final(self).next_thread_spec() == (old(self).next_thread_spec() + 1) % (
                    old(self).config_spec().num_threads as int)
                },
                None => false,
            },
    {
        if self.stop_signal {
            return None;
        }
        if self.pending.len() == 0 {
            return None;
        }
        let unit: MiningWork = self.pending.remove(0);
        proof {
            assert(self.pending@ =~= old(self).pending_units().skip(1));
        }
        let tid: usize = self.next_thread;
        let vectorized: bool = self.config.target_cpu.is_some();
        let mut probe = NeverStop;
        let res: MiningResult = process_work(
            &self.oracle,
            &unit,
            tid,
            self.config.batch_size,
            vectorized,
            &mut probe,
        );
        self.stats.add_hashes(tid, res.hashes_computed);
        let n: usize = self.config.num_threads;
        proof {
            if tid + 1 == n {
                lemma_mod_self_0(n as int);
            } else {
                lemma_small_mod((tid + 1) as nat, n as nat);
            }
        }
        self.next_thread = if tid + 1 == n {
            0
        } else {
            tid + 1
        };
        Some(res)
    }
}

} // verus!
