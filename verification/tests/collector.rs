//! Parallel collection: attribution, partial failure and thread sizing.

use std::collections::HashMap;

use nbmon::parallel_stats::{
    collect_active_stats_parallel, collect_all_stats_parallel, collect_stats_in_batches,
    optimal_thread_count, optimal_thread_count_for, StatsCollector,
};
use nbmon::NetworkInterface;

const PROC_NET_DEV: &str = "Inter-|   Receive                                                |  Transmit\n face |bytes    packets errs drop fifo frame compressed multicast|bytes    packets errs drop fifo colls carrier compressed\n    lo:     100      10    0    0    0     0          0         0      100      10    0    0    0     0       0          0\n  eth0:    1000      50    2    0    0     0          0         0     2000      60    3    0    0     0       0          0\n wlan0: 5000000    4000    1    0    0     0          0         0  7000000    3500    4    0    0     0       0          0\n";

fn test_interfaces() -> Vec<NetworkInterface> {
    let mut lo = NetworkInterface::new(1, "lo".to_string(), "loopback".to_string());
    lo.is_up = true;
    lo.is_loopback = true;
    let mut eth0 = NetworkInterface::new(2, "eth0".to_string(), "wired".to_string());
    eth0.is_up = true;
    let mut wlan0 = NetworkInterface::new(3, "wlan0".to_string(), "wireless".to_string());
    wlan0.is_up = true;
    vec![lo, eth0, wlan0]
}

#[test]
fn every_interface_gets_exactly_one_attributed_snapshot() {
    let interfaces = test_interfaces();
    let stats = collect_all_stats_parallel(&interfaces, PROC_NET_DEV, 42).unwrap();
    assert_eq!(stats.len(), interfaces.len());
    let by_identity: HashMap<u32, u64> =
        stats.iter().map(|s| (s.interface_index, s.bytes_received)).collect();
    assert_eq!(by_identity.len(), 3);
    assert_eq!(by_identity[&1], 100);
    assert_eq!(by_identity[&2], 1000);
    assert_eq!(by_identity[&3], 5_000_000);
    for s in &stats {
        assert_eq!(s.timestamp, Some(42));
    }
}

#[test]
fn one_missing_interface_fails_full_collection() {
    let mut interfaces = test_interfaces();
    interfaces.push(NetworkInterface::new(4, "eth9".to_string(), "ghost".to_string()));
    let err = collect_all_stats_parallel(&interfaces, PROC_NET_DEV, 0).unwrap_err();
    assert_eq!(
        err.message_payload(),
        "Interface 'eth9' not found in /proc/net/dev"
    );
}

#[test]
fn active_collection_pairs_positions_with_snapshots() {
    let interfaces = test_interfaces();
    let pairs = collect_active_stats_parallel(&interfaces, PROC_NET_DEV, 7).unwrap();
    // lo is loopback: only eth0 (position 1) and wlan0 (position 2) qualify.
    assert_eq!(pairs.len(), 2);
    assert_eq!(pairs[0].0, 1);
    assert_eq!(pairs[0].1.interface_index, 2);
    assert_eq!(pairs[0].1.bytes_received, 1000);
    assert_eq!(pairs[1].0, 2);
    assert_eq!(pairs[1].1.interface_index, 3);
    assert_eq!(pairs[1].1.bytes_sent, 7_000_000);
}

#[test]
fn batched_collection_equals_full_collection() {
    let interfaces = test_interfaces();
    let full = collect_all_stats_parallel(&interfaces, PROC_NET_DEV, 9).unwrap();
    for batch_size in 1..=4usize {
        let batched =
            collect_stats_in_batches(&interfaces, PROC_NET_DEV, 9, batch_size).unwrap();
        assert_eq!(batched, full);
    }
}

#[test]
fn collector_parallel_and_sequential_agree() {
    let mut collector = StatsCollector::new(test_interfaces());
    assert!(collector.time_since_last_collection(5).is_none());
    let parallel = collector.collect(PROC_NET_DEV, 100).unwrap();
    collector.set_parallel(false);
    let sequential = collector.collect(PROC_NET_DEV, 100).unwrap();
    assert_eq!(parallel, sequential);
    assert_eq!(collector.time_since_last_collection(150), Some(50));
    assert_eq!(collector.time_since_last_collection(90), Some(0));
}

#[test]
fn test_optimal_thread_count() {
    assert!(optimal_thread_count(2) >= 1);
    assert!(optimal_thread_count(4) >= 1);
    let many = optimal_thread_count(20);
    assert!(many >= 2);
    assert!(many <= rayon::current_num_threads());
}

#[test]
fn thread_count_formula_is_exact() {
    assert_eq!(optimal_thread_count_for(20, 8), 8);
    assert_eq!(optimal_thread_count_for(20, 1), 2);
    assert_eq!(optimal_thread_count_for(4, 8), 2);
    assert_eq!(optimal_thread_count_for(1, 8), 1);
    assert_eq!(optimal_thread_count_for(100, 16), 16);
}
