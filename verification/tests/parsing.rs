//! Parsing of the Linux counter table and sysfs attribute files.

use nbmon::linux_api::{get_interface_statistics, interface_from_sys_attrs, parse_proc_net_dev};
use nbmon::stats::get_interface_stats;
use nbmon::NetworkInterface;

const PROC_NET_DEV: &str = "Inter-|   Receive                                                |  Transmit\n face |bytes    packets errs drop fifo frame compressed multicast|bytes    packets errs drop fifo colls carrier compressed\n    lo:     100      10    0    0    0     0          0         0      100      10    0    0    0     0       0          0\n  eth0:    1000      50    2    0    0     0          0         0     2000      60    3    0    0     0       0          0\n wlan0: 5000000    4000    1    0    0     0          0         0  7000000    3500    4    0    0     0       0          0\n";

#[test]
fn parses_matching_line_counters() {
    let stats = parse_proc_net_dev("eth0", PROC_NET_DEV, 2, 5000).unwrap();
    assert_eq!(stats.interface_index, 2);
    assert_eq!(stats.bytes_received, 1000);
    assert_eq!(stats.packets_received, 50);
    assert_eq!(stats.errors_in, 2);
    assert_eq!(stats.bytes_sent, 2000);
    assert_eq!(stats.packets_sent, 60);
    assert_eq!(stats.errors_out, 3);
    assert_eq!(stats.timestamp, Some(5000));
}

#[test]
fn parses_another_interface_independently() {
    let stats = parse_proc_net_dev("wlan0", PROC_NET_DEV, 3, 1).unwrap();
    assert_eq!(stats.bytes_received, 5_000_000);
    assert_eq!(stats.bytes_sent, 7_000_000);
    assert_eq!(stats.packets_sent, 3500);
}

#[test]
fn missing_interface_is_reported_not_found() {
    let err = parse_proc_net_dev("eth9", PROC_NET_DEV, 9, 0).unwrap_err();
    assert_eq!(
        err.message_payload(),
        "Interface 'eth9' not found in /proc/net/dev"
    );
    assert_eq!(
        err.message(),
        "Network interface error: Interface 'eth9' not found in /proc/net/dev"
    );
}

#[test]
fn header_only_content_matches_nothing() {
    let content = "Inter-| Receive\n face |bytes\n";
    assert!(parse_proc_net_dev("lo", content, 1, 0).is_err());
}

#[test]
fn short_line_is_skipped() {
    let content = "h1\nh2\n  eth0: 1 2 3\n";
    assert!(parse_proc_net_dev("eth0", content, 1, 0).is_err());
}

#[test]
fn unparseable_field_counts_as_zero() {
    let content = "h1\nh2\n  eth0: x 2 3 4 5 6 7 8 900 10 11 12 13 14 15 16\n";
    let stats = parse_proc_net_dev("eth0", content, 1, 0).unwrap();
    assert_eq!(stats.bytes_received, 0);
    assert_eq!(stats.packets_received, 2);
    assert_eq!(stats.bytes_sent, 900);
}

#[test]
fn statistics_lookup_uses_one_based_handles() {
    let lo = NetworkInterface::new(1, "lo".to_string(), "lo".to_string());
    let eth0 = NetworkInterface::new(2, "eth0".to_string(), "eth0".to_string());
    let interfaces = vec![lo, eth0];
    let stats = get_interface_statistics(&interfaces, PROC_NET_DEV, 2, 77).unwrap();
    assert_eq!(stats.bytes_received, 1000);
    assert_eq!(stats.timestamp, Some(77));
    let same = get_interface_stats(&interfaces, PROC_NET_DEV, 2, 77).unwrap();
    assert_eq!(same, stats);
}

#[test]
fn out_of_range_handle_is_an_error() {
    let interfaces = vec![NetworkInterface::new(1, "lo".to_string(), "lo".to_string())];
    let err = get_interface_statistics(&interfaces, PROC_NET_DEV, 0, 0).unwrap_err();
    assert_eq!(err.message_payload(), "Interface index out of range");
    let err = get_interface_statistics(&interfaces, PROC_NET_DEV, 2, 0).unwrap_err();
    assert_eq!(err.message_payload(), "Interface index out of range");
}

#[test]
fn sys_attrs_interpretation() {
    let iface = interface_from_sys_attrs(
        3,
        "eth0",
        Some("up\n"),
        Some("1\n"),
        Some("aa:bb:cc:dd:ee:ff\n"),
        Some("1000\n"),
    );
    assert_eq!(iface.index, 3);
    assert_eq!(iface.name, "eth0");
    assert_eq!(iface.description, "eth0");
    assert!(iface.is_up);
    assert!(!iface.is_loopback);
    assert_eq!(iface.mac_address, "AA:BB:CC:DD:EE:FF");
    assert_eq!(iface.speed, 1_000_000_000);
}

#[test]
fn sys_attrs_loopback_and_down() {
    let iface = interface_from_sys_attrs(
        1,
        "lo",
        Some("unknown\n"),
        Some("772\n"),
        Some("00:00:00:00:00:00\n"),
        None,
    );
    assert!(!iface.is_up);
    assert!(iface.is_loopback);
    assert_eq!(iface.mac_address, "");
    assert_eq!(iface.speed, 1_000_000_000);
}

#[test]
fn sys_attrs_speed_parsing_and_fallback() {
    let ten_g = interface_from_sys_attrs(1, "e", None, None, None, Some("10000\n"));
    assert_eq!(ten_g.speed, 10_000_000_000);
    let junk = interface_from_sys_attrs(1, "e", None, None, None, Some("-1\n"));
    assert_eq!(junk.speed, 1_000_000_000);
    let missing = interface_from_sys_attrs(1, "e", None, None, None, None);
    assert_eq!(missing.speed, 1_000_000_000);
}
