use nonce_miner::make_work_units;

#[test]
fn three_workers_reduced_space() {
    let header = vec![1u8, 2, 3];
    let target = vec![0u8];
    let units = make_work_units(&header, &target, 3, 10);
    assert_eq!(units.len(), 3);
    let starts: Vec<u64> = units.iter().map(|u| u.start_nonce).collect();
    let lens: Vec<u64> = units.iter().map(|u| u.nonce_range).collect();
    assert_eq!(starts, vec![0, 3, 6]);
    assert_eq!(lens, vec![3, 3, 4]);
    for u in &units {
        assert_eq!(u.block_header, header);
        assert_eq!(u.target, target);
    }
}

#[test]
fn one_worker_owns_everything() {
    let units = make_work_units(&vec![], &vec![], 1, 5);
    assert_eq!(units.len(), 1);
    assert_eq!(units[0].start_nonce, 0);
    assert_eq!(units[0].nonce_range, 5);
}

#[test]
fn full_space_partition_sums_exactly() {
    let units = make_work_units(&vec![9u8], &vec![0u8], 4, u64::MAX);
    assert_eq!(units.len(), 4);
    let base = u64::MAX / 4;
    for (i, u) in units.iter().enumerate() {
        assert_eq!(u.start_nonce, i as u64 * base);
    }
    let total: u128 = units.iter().map(|u| u.nonce_range as u128).sum();
    assert_eq!(total, u64::MAX as u128);
    assert_eq!(units[3].nonce_range, base + 3);
}

#[test]
fn every_nonce_in_exactly_one_unit() {
    for n in 1..6usize {
        let units = make_work_units(&vec![], &vec![], n, 10);
        for nonce in 0u64..10 {
            let owners = units
                .iter()
                .filter(|u| u.start_nonce <= nonce && nonce < u.start_nonce + u.nonce_range)
                .count();
            assert_eq!(owners, 1, "nonce {} with {} workers", nonce, n);
        }
    }
}

#[test]
fn tiny_space_goes_to_last_worker() {
    let units = make_work_units(&vec![], &vec![], 4, 3);
    assert_eq!(units.len(), 4);
    assert_eq!(units[0].nonce_range, 0);
    assert_eq!(units[1].nonce_range, 0);
    assert_eq!(units[2].nonce_range, 0);
    assert_eq!(units[3].start_nonce, 0);
    assert_eq!(units[3].nonce_range, 3);
}
