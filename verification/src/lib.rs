//! A parallel nonce-search engine for proof-of-work mining.
//!
//! The verified core covers nonce-space partitioning, batched range
//! scanning with cooperative cancellation, target comparison, and
//! telemetry aggregation. Thread spawning, channel plumbing and
//! platform affinity syscalls live outside the verified library.

mod affinity;
mod clock;
mod config;
mod manager;
mod oracle;
mod stats;
mod target;
mod work;
mod worker;

pub use affinity::affinity_cpus;
pub use affinity::cpu_selected;
pub use affinity::in_node_slice;
pub use config::cpu_label;
pub use config::default_threads;
pub use config::ConfigError;
pub use config::OptimizedMiningConfig;
pub use manager::unit_outcome;
pub use manager::MiningError;
pub use manager::OptimizedMiningManager;
pub use oracle::fnv_fold;
pub use oracle::fnv_step;
pub use oracle::nonce_bytes;
pub use oracle::simple_digest;
pub use oracle::HashOracle;
pub use oracle::SimpleOracle;
pub use oracle::TableOracle;
pub use oracle::FNV_OFFSET;
pub use oracle::FNV_PRIME;
pub use stats::hashrate;
pub use stats::hashrate_spec;
pub use stats::lemma_telemetry_additive;
pub use stats::lemma_total_monotonic;
pub use stats::sat_add;
pub use stats::sum_hashes;
pub use stats::total_after;
pub use stats::MiningStats;
pub use target::check_target;
pub use target::cmp_len;
pub use target::le_from;
pub use target::meets_target;
pub use target::nth_le_byte;
pub use work::base_len;
pub use work::copy_bytes;
pub use work::in_unit;
pub use work::lemma_partition_covers;
pub use work::lemma_partition_disjoint;
pub use work::lemma_unit_bounds;
pub use work::make_work_units;
pub use work::unit_len;
pub use work::unit_start;
pub use work::MiningResult;
pub use work::MiningWork;
pub use worker::hash_batch;
pub use worker::lemma_scan_outcome_unique;
pub use worker::no_match;
pub use worker::process_work;
pub use worker::scan_outcome;
pub use worker::scan_range;
pub use worker::scan_range_batched;
pub use worker::CountdownStop;
pub use worker::NeverStop;
pub use worker::StopProbe;
