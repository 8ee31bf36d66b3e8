use nonce_miner::hashrate;
use nonce_miner::MiningStats;

#[test]
fn counters_start_at_zero() {
    let stats = MiningStats::new(3);
    assert_eq!(stats.total_hashes, 0);
    assert_eq!(stats.thread_hashrates, vec![0, 0, 0]);
}

#[test]
fn totals_accumulate_and_slots_overwrite() {
    let mut stats = MiningStats::new(2);
    stats.add_hashes(0, 100);
    stats.add_hashes(1, 50);
    stats.add_hashes(0, 25);
    assert_eq!(stats.get_total_hashes(), 175);
    // the per-worker slot holds only the last report, by design
    assert_eq!(stats.thread_hashrates, vec![25, 50]);
}

#[test]
fn total_counter_saturates_instead_of_wrapping() {
    let mut stats = MiningStats::new(1);
    stats.add_hashes(0, u64::MAX - 3);
    stats.add_hashes(0, 10);
    assert_eq!(stats.get_total_hashes(), u64::MAX);
    stats.add_hashes(0, 1);
    assert_eq!(stats.get_total_hashes(), u64::MAX);
}

#[test]
fn hashrate_formula_on_exact_values() {
    // one million hashes over one second
    assert_eq!(hashrate(1_000_000, 1_000_000), 1_000_000);
    // ten hashes over two seconds
    assert_eq!(hashrate(10, 2_000_000), 5);
    // integer division truncates
    assert_eq!(hashrate(7, 2_000_000), 3);
    // no time elapsed yet: no rate rather than a division error
    assert_eq!(hashrate(500, 0), 0);
    // enormous totals over a microsecond saturate
    assert_eq!(hashrate(u64::MAX, 1), u64::MAX);
}

#[test]
fn session_rate_is_readable() {
    let stats = MiningStats::new(1);
    let _ = stats.get_total_hashrate();
}
