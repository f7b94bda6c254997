//! Interface identity helpers, formatting, and the public-IP cache.

use nbmon::format::{format_bits_per_sec, format_bytes};
use nbmon::interface::IpAddress;
use nbmon::public_ip::{get_public_ip, invalidate_cache, is_private_ip, PublicIpCache};
use nbmon::text::{contains_chars, parse_u64};
use nbmon::NetworkInterface;

#[test]
fn virtual_interface_detection_is_case_insensitive() {
    let mut iface = NetworkInterface::new(1, "eth0".to_string(), String::new());
    iface.description = "VMware Virtual Ethernet Adapter".to_string();
    assert!(iface.is_virtual());
    iface.description = "TAP-Windows Adapter".to_string();
    assert!(iface.is_virtual());
    iface.description = "Realtek PCIe GbE Family Controller".to_string();
    assert!(!iface.is_virtual());
    iface.description = "Hyper-V Network Adapter".to_string();
    assert!(iface.is_virtual());
}

#[test]
fn display_name_prefers_the_description() {
    let mut iface = NetworkInterface::new(1, "eth0".to_string(), "Wired card".to_string());
    assert_eq!(iface.display_name(), "Wired card");
    iface.description = String::new();
    assert_eq!(iface.display_name(), "eth0");
}

#[test]
fn mac_addresses_format_as_uppercase_hex_pairs() {
    assert_eq!(
        NetworkInterface::format_mac_address(&[0x00, 0x11, 0xab, 0xcd, 0xef, 0x5a]),
        "00:11:AB:CD:EF:5A"
    );
    assert_eq!(NetworkInterface::format_mac_address(&[]), "");
    assert_eq!(NetworkInterface::format_mac_address(&[0x0f]), "0F");
}

#[test]
fn substring_search_on_characters() {
    let hay: Vec<char> = "hello world".chars().collect();
    let needle: Vec<char> = "lo wo".chars().collect();
    assert!(contains_chars(&hay, &needle));
    let missing: Vec<char> = "worlds".chars().collect();
    assert!(!contains_chars(&hay, &missing));
    let empty: Vec<char> = Vec::new();
    assert!(contains_chars(&hay, &empty));
}

#[test]
fn decimal_parsing_is_strict() {
    let digits: Vec<char> = "18446744073709551615".chars().collect();
    assert_eq!(parse_u64(&digits), Some(u64::MAX));
    let overflow: Vec<char> = "18446744073709551616".chars().collect();
    assert_eq!(parse_u64(&overflow), None);
    let empty: Vec<char> = Vec::new();
    assert_eq!(parse_u64(&empty), None);
    let signed: Vec<char> = "-5".chars().collect();
    assert_eq!(parse_u64(&signed), None);
    let plain: Vec<char> = "042".chars().collect();
    assert_eq!(parse_u64(&plain), Some(42));
}

#[test]
fn bit_rates_format_with_decimal_units() {
    assert_eq!(format_bits_per_sec(0), "0 bps");
    assert_eq!(format_bits_per_sec(999), "999 bps");
    assert_eq!(format_bits_per_sec(1000), "1.0 Kbps");
    assert_eq!(format_bits_per_sec(1500), "1.5 Kbps");
    assert_eq!(format_bits_per_sec(999_999), "1000.0 Kbps");
    assert_eq!(format_bits_per_sec(1_000_000), "1.0 Mbps");
    assert_eq!(format_bits_per_sec(2_550_000), "2.6 Mbps");
    assert_eq!(format_bits_per_sec(1_000_000_000), "1.0 Gbps");
    assert_eq!(format_bits_per_sec(10_000_000_000), "10.0 Gbps");
}

#[test]
fn byte_counts_format_with_binary_units() {
    assert_eq!(format_bytes(500), "500 B");
    assert_eq!(format_bytes(1024), "1.0 kiB");
    assert_eq!(format_bytes(1024 * 1024), "1.0 MiB");
}

#[test]
fn cache_honors_its_time_to_live() {
    let mut cache = PublicIpCache::new();
    assert_eq!(get_public_ip(&cache, 0), None);
    cache.set("203.0.113.9".to_string(), 1000);
    assert_eq!(get_public_ip(&cache, 1000), Some("203.0.113.9".to_string()));
    assert_eq!(get_public_ip(&cache, 300_999), Some("203.0.113.9".to_string()));
    assert_eq!(get_public_ip(&cache, 301_000), None);
    assert!(cache.is_valid(1000));
    assert!(!cache.is_valid(301_000));
}

#[test]
fn invalidation_forces_a_miss() {
    let mut cache = PublicIpCache::new();
    cache.set("203.0.113.9".to_string(), 1000);
    invalidate_cache(&mut cache);
    assert_eq!(get_public_ip(&cache, 1000), None);
    assert_eq!(cache.ip, None);
    assert_eq!(cache.last_updated, None);
}

#[test]
fn private_ipv4_ranges() {
    assert!(is_private_ip(&IpAddress::V4(10, 1, 2, 3)));
    assert!(is_private_ip(&IpAddress::V4(172, 16, 0, 1)));
    assert!(is_private_ip(&IpAddress::V4(172, 31, 255, 255)));
    assert!(!is_private_ip(&IpAddress::V4(172, 32, 0, 1)));
    assert!(!is_private_ip(&IpAddress::V4(172, 15, 0, 1)));
    assert!(is_private_ip(&IpAddress::V4(192, 168, 1, 1)));
    assert!(!is_private_ip(&IpAddress::V4(192, 169, 1, 1)));
    assert!(is_private_ip(&IpAddress::V4(127, 0, 0, 1)));
    assert!(!is_private_ip(&IpAddress::V4(8, 8, 8, 8)));
}

#[test]
fn private_ipv6_ranges() {
    assert!(is_private_ip(&IpAddress::V6([0, 0, 0, 0, 0, 0, 0, 1])));
    assert!(is_private_ip(&IpAddress::V6([0, 0, 0, 0, 0, 0, 0, 0])));
    assert!(is_private_ip(&IpAddress::V6([0xfc00, 0, 0, 0, 0, 0, 0, 1])));
    assert!(is_private_ip(&IpAddress::V6([0xfd12, 0, 0, 0, 0, 0, 0, 1])));
    assert!(is_private_ip(&IpAddress::V6([0xfe80, 0, 0, 0, 0, 0, 0, 1])));
    assert!(!is_private_ip(&IpAddress::V6([0x2001, 0xdb8, 0, 0, 0, 0, 0, 1])));
}
