use nonce_miner::affinity_cpus;
use nonce_miner::cpu_label;
use nonce_miner::OptimizedMiningConfig;

#[test]
fn cpu_labels_by_capability() {
    assert_eq!(cpu_label(true, true), "znver4");
    assert_eq!(cpu_label(true, false), "znver4");
    assert_eq!(cpu_label(false, true), "znver2");
    assert_eq!(cpu_label(false, false), "x86-64");
}

#[test]
fn single_node_takes_all_cpus() {
    assert_eq!(affinity_cpus(0, &vec![0], 4), vec![0, 1, 2, 3]);
}

#[test]
fn two_nodes_split_by_residue_class() {
    // eight CPUs over two nodes: worker 1 takes the odd CPUs
    assert_eq!(affinity_cpus(1, &vec![0, 1], 8), vec![1, 3, 5, 7]);
    assert_eq!(affinity_cpus(0, &vec![0, 1], 8), vec![0, 2, 4, 6]);
    // worker ids cycle over the node count
    assert_eq!(affinity_cpus(2, &vec![0, 1], 8), affinity_cpus(0, &vec![0, 1], 8));
}

#[test]
fn second_node_only_covers_its_slice() {
    // eight CPUs over node 1 alone: per-node share is all eight, so
    // node 1's slice starts past the last CPU and selects nothing
    assert_eq!(affinity_cpus(0, &vec![1], 8), Vec::<usize>::new());
}

#[test]
fn default_configuration_is_valid() {
    let c = OptimizedMiningConfig::default();
    assert!(c.num_threads >= 1);
    assert_eq!(c.batch_size, 1000);
    assert!(c.thread_affinity);
    assert_eq!(c.numa_nodes, vec![0]);
    assert_eq!(c.stats_interval_millis, 10_000);
    assert!(c.validate().is_ok());
}
