//! Rate derivation behavior on concrete snapshot pairs.

use nbmon::stats::{BandwidthStats, InterfaceStats};

fn snapshot(received: u64, sent: u64, at_millis: Option<u64>) -> InterfaceStats {
    InterfaceStats {
        interface_index: 1,
        bytes_sent: sent,
        bytes_received: received,
        packets_sent: 0,
        packets_received: 0,
        errors_in: 0,
        errors_out: 0,
        timestamp: at_millis,
    }
}

#[test]
fn exact_rate_from_nondecreasing_counters() {
    let previous = snapshot(1000, 0, Some(0));
    let current = snapshot(3000, 500, Some(1000));
    let sample = current.calculate_bandwidth(&previous).unwrap();
    assert_eq!(sample.download_rate, 2000);
    assert_eq!(sample.upload_rate, 500);
    assert_eq!(sample.total_downloaded, 3000);
    assert_eq!(sample.total_uploaded, 500);
    assert_eq!(sample.peak_download_rate, 2000);
    assert_eq!(sample.peak_upload_rate, 500);
}

#[test]
fn sub_second_interval_scales_to_bytes_per_second() {
    let previous = snapshot(0, 0, Some(0));
    let current = snapshot(500, 250, Some(500));
    let sample = current.calculate_bandwidth(&previous).unwrap();
    assert_eq!(sample.download_rate, 1000);
    assert_eq!(sample.upload_rate, 500);
}

#[test]
fn counter_reset_clamps_rate_to_zero() {
    let previous = snapshot(5000, 4000, Some(0));
    let current = snapshot(100, 4500, Some(1000));
    let sample = current.calculate_bandwidth(&previous).unwrap();
    assert_eq!(sample.download_rate, 0);
    assert_eq!(sample.upload_rate, 500);
    assert_eq!(sample.total_downloaded, 100);
}

#[test]
fn equal_timestamps_yield_no_sample() {
    let previous = snapshot(1000, 0, Some(500));
    let current = snapshot(3000, 0, Some(500));
    assert!(current.calculate_bandwidth(&previous).is_none());
}

#[test]
fn earlier_timestamp_yields_no_sample() {
    let previous = snapshot(1000, 0, Some(2000));
    let current = snapshot(3000, 0, Some(1000));
    assert!(current.calculate_bandwidth(&previous).is_none());
}

#[test]
fn missing_timestamp_yields_no_sample() {
    let previous = snapshot(1000, 0, None);
    let current = snapshot(3000, 0, Some(1000));
    assert!(current.calculate_bandwidth(&previous).is_none());
    let previous = snapshot(1000, 0, Some(0));
    let current = snapshot(3000, 0, None);
    assert!(current.calculate_bandwidth(&previous).is_none());
}

#[test]
fn huge_delta_saturates_instead_of_overflowing() {
    let previous = snapshot(0, 0, Some(0));
    let current = snapshot(u64::MAX, 0, Some(1));
    let sample = current.calculate_bandwidth(&previous).unwrap();
    assert_eq!(sample.download_rate, u64::MAX);
}

#[test]
fn baseline_snapshot_is_zero_valued() {
    let baseline = InterfaceStats::new(7, 1234);
    assert_eq!(baseline.interface_index, 7);
    assert_eq!(baseline.bytes_received, 0);
    assert_eq!(baseline.bytes_sent, 0);
    assert_eq!(baseline.timestamp, Some(1234));
}

#[test]
fn default_snapshot_has_no_timestamp() {
    let d = InterfaceStats::default();
    assert_eq!(d.timestamp, None);
    assert_eq!(d.bytes_received, 0);
    let b = BandwidthStats::default();
    assert_eq!(b.download_rate, 0);
    assert_eq!(b.upload_rate, 0);
}
