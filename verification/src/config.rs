//! Pool configuration: immutable after construction, validated before
//! any worker exists.

use vstd::prelude::*;

verus! {

/// Why a configuration is rejected at construction.
#[derive(Clone, Copy, Debug, PartialEq, Eq, Structural)]
pub enum ConfigError {
    /// The pool needs at least one worker thread.
    ZeroThreads,
    /// Scanning proceeds in batches of at least one nonce.
    ZeroBatchSize,
    /// Affinity binding is enabled but no NUMA node is named.
    NoNumaNodes,
}

/// Configuration of one mining pool.
#[derive(Clone, Debug)]
pub struct OptimizedMiningConfig {
    /// How many worker threads the pool runs.
    pub num_threads: usize,
    /// Optional compiler-target hint of the detected CPU.
    pub target_cpu: Option<String>,
    /// NUMA nodes the workers spread over when affinity is enabled.
    pub numa_nodes: Vec<usize>,
    /// Whether workers attempt best-effort CPU affinity binding.
    pub thread_affinity: bool,
    /// Nonces scanned between two polls of the stop signal.
    pub batch_size: usize,
    /// How often the periodic stats report runs.
    pub stats_interval_millis: u64,
}

impl OptimizedMiningConfig {
    /// A usable configuration: positive thread count and batch size,
    /// and a non-empty NUMA node set whenever affinity is enabled.
    pub open spec fn wf(&self) -> bool {
        &&& self.num_threads >= 1
        &&& self.batch_size >= 1
        &&& (self.thread_affinity ==> self.numa_nodes@.len() >= 1)
    }

    /// Checks the configuration invariant, reporting the first
    /// violation in the order thread count, batch size, NUMA nodes.
    pub fn validate(&self) -> (r: Result<(), ConfigError>)
        ensures
            r is Ok <==> self.wf(),
            r == Err::<(), ConfigError>(ConfigError::ZeroThreads) <==> self.num_threads == 0,
            r == Err::<(), ConfigError>(ConfigError::ZeroBatchSize) <==> self.num_threads >= 1
                && self.batch_size == 0,
            r == Err::<(), ConfigError>(ConfigError::NoNumaNodes) <==> self.num_threads >= 1
                && self.batch_size >= 1 && self.thread_affinity && self.numa_nodes@.len() == 0,
    {
        if self.num_threads == 0 {
            Err(ConfigError::ZeroThreads)
        } else if self.batch_size == 0 {
            Err(ConfigError::ZeroBatchSize)
        } else if self.thread_affinity && self.numa_nodes.len() == 0 {
            Err(ConfigError::NoNumaNodes)
        } else {
            Ok(())
        }
    }
}

/// Default worker count for a machine with `cpus` logical CPUs: leave
/// two CPUs to the host when there are more than four.
pub open spec fn default_threads(cpus: usize) -> usize {
    if cpus > 4 {
        (cpus - 2) as usize
    } else {
        cpus
    }
}

/// Relies on num_cpus::get: the number of logical CPUs of the running
/// system, documented to always be at least 1.
#[verifier::external_body]
fn cpu_count() -> (r: usize)
    ensures
        r >= 1,
{
    num_cpus::get()
}

impl Default for OptimizedMiningConfig {
    /// A usable default: worker count derived from the machine's CPU
    /// count, the first NUMA node, affinity on, batches of 1000
    /// nonces, stats every ten seconds. The CPU label is left unset;
    /// a host that detects CPU capabilities may fill it in.
    fn default() -> (r: Self)
        ensures
            r.wf(),
            exists|cpus: usize| cpus >= 1 && r.num_threads == default_threads(cpus),
            r.target_cpu is None,
            r.numa_nodes@.len() == 1 && r.numa_nodes@[0] == 0,
            r.thread_affinity,
            r.batch_size == 1000,
            r.stats_interval_millis == 10_000,
    {
        let cpus: usize = cpu_count();
        let num_threads: usize = if cpus > 4 {
            cpus - 2
        } else {
            cpus
        };
        proof {
            assert(num_threads == default_threads(cpus));
        }
        let mut numa_nodes: Vec<usize> = Vec::new();
        numa_nodes.push(0);
        OptimizedMiningConfig {
            num_threads,
            target_cpu: None,
            numa_nodes,
            thread_affinity: true,
            batch_size: 1000,
            stats_interval_millis: 10_000,
        }
    }
}

/// The compiler-target label matching a detected x86-64 capability
/// set, finest capability first.
pub fn cpu_label(has_avx512: bool, has_avx2: bool) -> (r: &'static str)
    ensures
        has_avx512 ==> r@ == "znver4"@,
        !has_avx512 && has_avx2 ==> r@ == "znver2"@,
        !has_avx512 && !has_avx2 ==> r@ == "x86-64"@,
{
    if has_avx512 {
        "znver4"
    } else if has_avx2 {
        "znver2"
    } else {
        "x86-64"
    }
}

} // verus!
