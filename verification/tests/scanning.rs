use nonce_miner::hash_batch;
use nonce_miner::process_work;
use nonce_miner::scan_range;
use nonce_miner::scan_range_batched;
use nonce_miner::check_target;
use nonce_miner::CountdownStop;
use nonce_miner::HashOracle;
use nonce_miner::MiningWork;
use nonce_miner::NeverStop;
use nonce_miner::SimpleOracle;
use nonce_miner::TableOracle;

fn unit(start: u64, range: u64) -> MiningWork {
    MiningWork {
        block_header: vec![0xAB, 0xCD],
        target: vec![0x00],
        start_nonce: start,
        nonce_range: range,
    }
}

#[test]
fn check_target_byte_rules() {
    assert!(check_target(0, &vec![0x00]));
    assert!(!check_target(1, &vec![0x00]));
    assert!(check_target(5, &vec![5]));
    assert!(!check_target(6, &vec![5]));
    // empty target accepts everything
    assert!(check_target(u64::MAX, &vec![]));
    // second little-endian byte decides: 0x0100 -> [0x00, 0x01]
    assert!(check_target(0x0100, &vec![0x00, 0x02]));
    assert!(!check_target(0x0100, &vec![0x00, 0x00]));
    // targets longer than eight bytes compare only the digest's bytes
    assert!(check_target(0, &vec![0u8; 12]));
}

#[test]
fn match_reported_at_exact_position() {
    let oracle = TableOracle { matching: vec![7] };
    let w = unit(0, 100);
    let mut probe = NeverStop;
    let res = process_work(&oracle, &w, 3, 10, false, &mut probe);
    assert_eq!(res.thread_id, 3);
    assert_eq!(res.nonce, Some(7));
    // 1-based position of nonce 7 in scan order
    assert_eq!(res.hashes_computed, 8);
}

#[test]
fn scanning_stops_at_first_of_several_matches() {
    let oracle = TableOracle { matching: vec![40, 12, 77] };
    let w = unit(0, 100);
    let mut probe = NeverStop;
    let res = process_work(&oracle, &w, 0, 10, false, &mut probe);
    assert_eq!(res.nonce, Some(12));
    assert_eq!(res.hashes_computed, 13);
}

#[test]
fn exhausted_unit_reports_full_range() {
    let oracle = TableOracle { matching: vec![] };
    let w = unit(5, 50);
    let mut probe = NeverStop;
    let res = process_work(&oracle, &w, 0, 7, false, &mut probe);
    assert_eq!(res.nonce, None);
    assert_eq!(res.hashes_computed, 50);
}

#[test]
fn cancellation_abandons_at_batch_boundary() {
    let oracle = TableOracle { matching: vec![] };
    let w = unit(0, 100);
    // two batches are allowed before the probe fires
    let mut probe = CountdownStop { polls_left: 2 };
    let res = process_work(&oracle, &w, 0, 10, false, &mut probe);
    assert_eq!(res.nonce, None);
    assert_eq!(res.hashes_computed, 20);
    assert!(res.hashes_computed < w.nonce_range);
    assert_eq!(res.hashes_computed % 10, 0);
}

#[test]
fn cancellation_before_first_batch() {
    let oracle = TableOracle { matching: vec![] };
    let w = unit(0, 100);
    let mut probe = CountdownStop { polls_left: 0 };
    let res = process_work(&oracle, &w, 0, 10, false, &mut probe);
    assert_eq!(res.nonce, None);
    assert_eq!(res.hashes_computed, 0);
}

#[test]
fn vectorized_and_scalar_paths_agree() {
    let header = vec![1u8, 2, 3, 4];
    let target = vec![0x00];
    for hit in 0u64..24 {
        let oracle = TableOracle { matching: vec![hit] };
        let scalar = scan_range(&oracle, &header, &target, 0, 21);
        let batched = scan_range_batched(&oracle, &header, &target, 0, 21);
        assert_eq!(scalar, batched, "match at {}", hit);
    }
    let oracle = SimpleOracle;
    let loose = vec![0x80u8; 8];
    assert_eq!(
        scan_range(&oracle, &header, &loose, 100, 163),
        scan_range_batched(&oracle, &header, &loose, 100, 163)
    );
}

#[test]
fn vectorized_unit_scan_matches_scalar() {
    let oracle = TableOracle { matching: vec![55] };
    let w = unit(0, 100);
    let mut p1 = NeverStop;
    let scalar = process_work(&oracle, &w, 0, 16, false, &mut p1);
    let mut p2 = NeverStop;
    let batched = process_work(&oracle, &w, 0, 16, true, &mut p2);
    assert_eq!(scalar.nonce, batched.nonce);
    assert_eq!(scalar.hashes_computed, batched.hashes_computed);
}

#[test]
fn hash_batch_equals_single_digests() {
    let oracle = SimpleOracle;
    let header = vec![7u8, 7, 7];
    let nonces = vec![0u64, 1, 2, 3, 1000];
    let digests = hash_batch(&oracle, &nonces, &header);
    assert_eq!(digests.len(), nonces.len());
    for (i, &n) in nonces.iter().enumerate() {
        assert_eq!(digests[i], oracle.digest(n, &header));
    }
}

#[test]
fn simple_oracle_is_deterministic_and_header_sensitive() {
    let oracle = SimpleOracle;
    let h1 = vec![1u8, 2, 3];
    let h2 = vec![1u8, 2, 4];
    assert_eq!(oracle.digest(42, &h1), oracle.digest(42, &h1));
    assert_ne!(oracle.digest(42, &h1), oracle.digest(43, &h1));
    assert_ne!(oracle.digest(42, &h1), oracle.digest(42, &h2));
}
