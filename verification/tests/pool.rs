use nonce_miner::ConfigError;
use nonce_miner::MiningError;
use nonce_miner::OptimizedMiningConfig;
use nonce_miner::OptimizedMiningManager;
use nonce_miner::TableOracle;

fn config(num_threads: usize) -> OptimizedMiningConfig {
    OptimizedMiningConfig {
        num_threads,
        target_cpu: None,
        numa_nodes: vec![0],
        thread_affinity: false,
        batch_size: 1000,
        stats_interval_millis: 10_000,
    }
}

#[test]
fn found_nonce_in_first_workers_range() {
    // four workers; nonce 7 sits in worker 0's range and matches
    let oracle = TableOracle { matching: vec![7] };
    let mut manager = OptimizedMiningManager::new(config(4), oracle).unwrap();
    manager.start_mining(vec![1, 2, 3], vec![0x00]).unwrap();
    let res = manager.wait_for_result(1000).expect("a result is due");
    assert_eq!(res.nonce, Some(7));
    assert_eq!(res.thread_id, 0);
    assert_eq!(res.hashes_computed, 8);
}

#[test]
fn no_match_exhausts_both_ranges() {
    let oracle = TableOracle { matching: vec![] };
    let mut manager = OptimizedMiningManager::new(config(2), oracle).unwrap();
    manager
        .start_mining_over(vec![9, 9], vec![0x00], 64)
        .unwrap();
    let first = manager.wait_for_result(1000).expect("first result");
    let second = manager.wait_for_result(1000).expect("second result");
    assert_eq!(first.nonce, None);
    assert_eq!(second.nonce, None);
    assert_eq!(first.thread_id, 0);
    assert_eq!(second.thread_id, 1);
    assert_eq!(first.hashes_computed, 32);
    assert_eq!(second.hashes_computed, 32);
    assert!(manager.wait_for_result(1000).is_none());
}

#[test]
fn telemetry_adds_up_over_completed_units() {
    let oracle = TableOracle { matching: vec![10] };
    let mut manager = OptimizedMiningManager::new(config(3), oracle).unwrap();
    manager
        .start_mining_over(vec![], vec![0x00], 90)
        .unwrap();
    let mut reported: u64 = 0;
    while let Some(res) = manager.wait_for_result(1000) {
        reported += res.hashes_computed;
    }
    let (_rate, total) = manager.get_stats();
    assert_eq!(total, reported);
    // worker 0 stops at nonce 10 (11 hashes); workers 1 and 2 exhaust
    assert_eq!(total, 11 + 30 + 30);
}

#[test]
fn stop_is_idempotent_and_closes_the_pool() {
    let oracle = TableOracle { matching: vec![] };
    let mut manager = OptimizedMiningManager::new(config(2), oracle).unwrap();
    manager
        .start_mining_over(vec![], vec![0x00], 16)
        .unwrap();
    manager.stop_mining();
    // pending work is never delivered once stopped
    assert!(manager.wait_for_result(1000).is_none());
    let stats_once = manager.get_stats();
    manager.stop_mining();
    let stats_twice = manager.get_stats();
    assert_eq!(stats_once.1, stats_twice.1);
    assert!(manager.wait_for_result(1000).is_none());
    assert_eq!(
        manager.start_mining(vec![], vec![0x00]),
        Err(MiningError::ChannelClosed)
    );
}

#[test]
fn work_queue_applies_backpressure() {
    let oracle = TableOracle { matching: vec![] };
    let mut manager = OptimizedMiningManager::new(config(1), oracle).unwrap();
    manager.start_mining_over(vec![], vec![], 4).unwrap();
    manager.start_mining_over(vec![], vec![], 4).unwrap();
    assert_eq!(
        manager.start_mining_over(vec![], vec![], 4),
        Err(MiningError::QueueFull)
    );
    // draining one unit frees room for the next round
    assert!(manager.wait_for_result(1000).is_some());
    manager.start_mining_over(vec![], vec![], 4).unwrap();
}

#[test]
fn construction_rejects_bad_configurations() {
    let mk = |c: OptimizedMiningConfig| {
        OptimizedMiningManager::new(c, TableOracle { matching: vec![] })
    };
    let mut zero_threads = config(0);
    zero_threads.num_threads = 0;
    assert_eq!(mk(zero_threads).err(), Some(ConfigError::ZeroThreads));
    let mut zero_batch = config(2);
    zero_batch.batch_size = 0;
    assert_eq!(mk(zero_batch).err(), Some(ConfigError::ZeroBatchSize));
    let mut no_nodes = config(2);
    no_nodes.thread_affinity = true;
    no_nodes.numa_nodes = vec![];
    assert_eq!(mk(no_nodes).err(), Some(ConfigError::NoNumaNodes));
    assert!(mk(config(2)).is_ok());
}

#[test]
fn permissive_target_matches_immediately() {
    // a target of all-0xff bytes accepts any digest, so the very first
    // nonce of worker 0's range is the least match
    let mut manager =
        OptimizedMiningManager::new(config(1), nonce_miner::SimpleOracle).unwrap();
    manager.start_mining(vec![5, 6, 7], vec![0xff; 8]).unwrap();
    let res = manager.wait_for_result(1000).expect("immediate match");
    assert_eq!(res.nonce, Some(0));
    assert_eq!(res.hashes_computed, 1);
    assert_eq!(res.thread_id, 0);
}

#[test]
fn results_only_flow_after_a_round_is_issued() {
    let oracle = TableOracle { matching: vec![] };
    let mut manager = OptimizedMiningManager::new(config(2), oracle).unwrap();
    assert!(manager.wait_for_result(50).is_none());
}
