//! CPU selection for best-effort affinity binding: which CPUs a worker
//! asks to be bound to, derived from its thread id and the configured
//! NUMA nodes. The syscall that applies the set is platform work and
//! stays outside the library; binding failure never changes mining
//! results.

use vstd::prelude::*;

verus! {

/// CPUs are spread evenly over the NUMA nodes: the slice of node `k`
/// is `[k * per, (k + 1) * per)`, clipped to the existing CPUs, with
/// `per = total_cpus / node_count`.
pub open spec fn in_node_slice(cpu: int, node: int, per: int, total: int) -> bool {
    node * per <= cpu < (node + 1) * per && cpu < total
}

/// Worker `thread_id` selects `cpu` when some configured node's slice
/// holds it and the cpu's residue class modulo the node count matches
/// the worker's.
pub open spec fn cpu_selected(cpu: int, thread_id: int, nodes: Seq<usize>, total: int) -> bool {
    &&& exists|k: int|
        0 <= k < nodes.len() && in_node_slice(
            cpu,
            #[trigger] nodes[k] as int,
            total / nodes.len() as int,
            total,
        )
    &&& cpu % (nodes.len() as int) == thread_id % (nodes.len() as int)
}

/// Whether some configured node's slice holds `cpu`.
fn node_covers(cpu: usize, nodes: &Vec<usize>, per: usize, total: usize) -> (r: bool)
    requires
        nodes@.len() >= 1,
    ensures
        r == exists|k: int|
            0 <= k < nodes@.len() && in_node_slice(cpu as int, nodes@[k] as int, per as int, total as int),
{
    if cpu >= total {
        return false;
    }
    let mut k: usize = 0;
    while k < nodes.len()
        invariant
            k <= nodes@.len(),
            cpu < total,
            forall|j: int|
                0 <= j < k ==> !in_node_slice(cpu as int, nodes@[j] as int, per as int, total as int),
        decreases nodes@.len() - k,
    {
        let node: u128 = nodes[k] as u128;
        let p128: u128 = per as u128;
        proof {
            assert(node * p128 + p128 <= u128::MAX) by (nonlinear_arith)
                requires
                    node <= 0xFFFF_FFFF_FFFF_FFFFu128,
                    p128 <= 0xFFFF_FFFF_FFFF_FFFFu128,
            ;
        }
        let lo: u128 = node * p128;
        let hi: u128 = lo + p128;
        proof {
            assert((nodes@[k as int] as int + 1) * (per as int) == nodes@[k as int] as int * (
            per as int) + per as int) by (nonlinear_arith);
        }
        if lo <= cpu as u128 && (cpu as u128) < hi {
            proof {
                assert(in_node_slice(cpu as int, nodes@[k as int] as int, per as int, total as int));
            }
            return true;
        }
        k = k + 1;
    }
    false
}

/// The CPU set worker `thread_id` binds to, in ascending order: exactly
/// the CPUs that `cpu_selected` admits.
pub fn affinity_cpus(thread_id: usize, numa_nodes: &Vec<usize>, total_cpus: usize) -> (r: Vec<
    usize,
>)
    requires
        numa_nodes@.len() >= 1,
    ensures
        forall|c: usize| #[trigger]
            r@.contains(c) <==> cpu_selected(
                c as int,
                thread_id as int,
                numa_nodes@,
                total_cpus as int,
            ),
{
    let nnodes: usize = numa_nodes.len();
    let per: usize = total_cpus / nnodes;
    let want: usize = thread_id % nnodes;
    let mut r: Vec<usize> = Vec::new();
    let mut cpu: usize = 0;
    while cpu < total_cpus
        invariant
            cpu <= total_cpus,
            numa_nodes@.len() >= 1,
            nnodes == numa_nodes@.len(),
            per == total_cpus as int / nnodes as int,
            want == thread_id as int % nnodes as int,
            forall|c: usize| #[trigger]
                r@.contains(c) <==> (cpu_selected(
                    c as int,
                    thread_id as int,
                    numa_nodes@,
                    total_cpus as int,
                ) && c < cpu),
        decreases total_cpus - cpu,
    {
        let covered: bool = node_covers(cpu, numa_nodes, per, total_cpus);
        if covered && cpu % nnodes == want {
            let ghost old_r = r@;
            r.push(cpu);
            proof {
                assert(r@[r@.len() - 1] == cpu);
                assert forall|c: usize| #[trigger] r@.contains(c) implies (old_r.contains(c) || c
                    == cpu) by {
                    let idx = choose|idx: int| 0 <= idx < r@.len() && r@[idx] == c;
                    if idx < r@.len() - 1 {
                        assert(old_r[idx] == c);
                    }
                }
                assert forall|c: usize| old_r.contains(c) implies #[trigger] r@.contains(c) by {
                    let idx = choose|idx: int| 0 <= idx < old_r.len() && old_r[idx] == c;
                    assert(r@[idx] == c);
                }
            }
        }
        cpu = cpu + 1;
    }
    r
}

} // verus!
