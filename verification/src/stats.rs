//! Counter snapshots and rate derivation.
//!
//! An `InterfaceStats` value is one timestamped read of an interface's
//! cumulative traffic counters; `calculate_bandwidth` turns an ordered pair of
//! such reads into a `BandwidthStats` sample. Timestamps are monotonic
//! milliseconds within one process run; rates are whole bytes per second.

use vstd::prelude::*;
use crate::error::{error_payload, AppError};
use crate::interface::NetworkInterface;
use crate::linux_api::{
    spec_interface_not_found_message, spec_parse_proc_net_dev,
};

verus! {

/// One read of an interface's cumulative counters, taken at a monotonic
/// millisecond timestamp. Counters are expected to be non-decreasing between
/// reads of the same interface, but nothing here assumes that: a device reset
/// can make any counter jump backwards.
#[derive(Debug, Clone, Copy, PartialEq, Eq)]
pub struct InterfaceStats {
    pub interface_index: u32,
    pub bytes_sent: u64,
    pub bytes_received: u64,
    pub packets_sent: u64,
    pub packets_received: u64,
    pub errors_in: u64,
    pub errors_out: u64,
    pub timestamp: Option<u64>,
}

/// A derived bandwidth sample: instantaneous rates in bytes per second plus
/// the absolute counters of the snapshot the sample was derived from.
#[derive(Debug, Clone, Copy, PartialEq, Eq)]
pub struct BandwidthStats {
    pub download_rate: u64,
    pub upload_rate: u64,
    pub total_downloaded: u64,
    pub total_uploaded: u64,
    pub peak_download_rate: u64,
    pub peak_upload_rate: u64,
}

/// Floor-at-zero difference of two counters: a counter that moved backwards
/// (reset, re-enumeration) contributes a delta of zero rather than a negative
/// or wrapped value.
pub open spec fn saturating_delta(current: u64, previous: u64) -> nat {
    if current >= previous {
        (current - previous) as nat
    } else {
        0
    }
}

/// Bytes per second from a byte delta over `elapsed_millis` milliseconds,
/// rounded down, clamped to `u64::MAX`.
pub open spec fn clamped_rate(delta: nat, elapsed_millis: nat) -> u64
    recommends
        elapsed_millis > 0,
{
    let rate = delta * 1000 / elapsed_millis;
    if rate > u64::MAX {
        u64::MAX
    } else {
        rate as u64
    }
}

/// The zero-valued baseline snapshot `InterfaceStats::new` builds: all
/// counters zero, captured at the given timestamp.
pub open spec fn spec_baseline(interface_index: u32, captured_at: u64) -> InterfaceStats {
    InterfaceStats {
        interface_index,
        bytes_sent: 0,
        bytes_received: 0,
        packets_sent: 0,
        packets_received: 0,
        errors_in: 0,
        errors_out: 0,
        timestamp: Some(captured_at),
    }
}

/// What `InterfaceStats::calculate_bandwidth` returns: a sample exactly when
/// both snapshots carry a timestamp and `current` is strictly newer, and no
/// sample (rather than a zero or an error) otherwise.
pub open spec fn spec_calculate_bandwidth(current: InterfaceStats, previous: InterfaceStats) -> Option<
    BandwidthStats,
> {
    if current.timestamp is Some && previous.timestamp is Some && current.timestamp.unwrap()
        > previous.timestamp.unwrap() {
        let elapsed = (current.timestamp.unwrap() - previous.timestamp.unwrap()) as nat;
        let download = clamped_rate(
            saturating_delta(current.bytes_received, previous.bytes_received),
            elapsed,
        );
        let upload = clamped_rate(saturating_delta(current.bytes_sent, previous.bytes_sent), elapsed);
        Some(
            BandwidthStats {
                download_rate: download,
                upload_rate: upload,
                total_downloaded: current.bytes_received,
                total_uploaded: current.bytes_sent,
                peak_download_rate: download,
                peak_upload_rate: upload,
            },
        )
    } else {
        None
    }
}

/// Bytes per second from a byte delta over a positive elapsed time in
/// milliseconds, clamped to `u64::MAX`.
fn rate_from(delta: u64, elapsed_millis: u64) -> (rate: u64)
    requires
        elapsed_millis > 0,
    ensures
        rate == clamped_rate(delta as nat, elapsed_millis as nat),
{
    let wide: u128 = (delta as u128) * 1000 / (elapsed_millis as u128);
    if wide > u64::MAX as u128 {
        u64::MAX
    } else {
        wide as u64
    }
}

impl InterfaceStats {
    /// A zero-valued baseline snapshot for an interface, captured at the given
    /// monotonic millisecond timestamp.
    pub fn new(interface_index: u32, captured_at: u64) -> (result: InterfaceStats)
        ensures
            result == spec_baseline(interface_index, captured_at),
    {
        InterfaceStats {
            interface_index,
            bytes_sent: 0,
            bytes_received: 0,
            packets_sent: 0,
            packets_received: 0,
            errors_in: 0,
            errors_out: 0,
            timestamp: Some(captured_at),
        }
    }

    /// Derives a bandwidth sample from this snapshot paired against an earlier
    /// one of the same interface. Yields no sample when either timestamp is
    /// missing or when this snapshot is not strictly newer; counter decreases
    /// are absorbed by floor-at-zero deltas, so rates are never fabricated
    /// from a reset.
    pub fn calculate_bandwidth(&self, previous: &InterfaceStats) -> (result: Option<BandwidthStats>)
        ensures
            result == spec_calculate_bandwidth(*self, *previous),
    {
        let current_time = match self.timestamp {
            Some(t) => t,
            None => {
                return None;
            },
        };
        let previous_time = match previous.timestamp {
            Some(t) => t,
            None => {
                return None;
            },
        };
        if current_time <= previous_time {
            return None;
        }
        let elapsed = current_time - previous_time;
        let bytes_received_diff = if self.bytes_received >= previous.bytes_received {
            self.bytes_received - previous.bytes_received
        } else {
            0
        };
        let bytes_sent_diff = if self.bytes_sent >= previous.bytes_sent {
            self.bytes_sent - previous.bytes_sent
        } else {
            0
        };
        let download_rate = rate_from(bytes_received_diff, elapsed);
        let upload_rate = rate_from(bytes_sent_diff, elapsed);
        Some(
            BandwidthStats {
                download_rate,
                upload_rate,
                total_downloaded: self.bytes_received,
                total_uploaded: self.bytes_sent,
                peak_download_rate: download_rate,
                peak_upload_rate: upload_rate,
            },
        )
    }
}

impl Default for InterfaceStats {
    /// An all-zero snapshot with no timestamp.
    fn default() -> (result: Self)
        ensures
            result == (InterfaceStats {
                interface_index: 0,
                bytes_sent: 0,
                bytes_received: 0,
                packets_sent: 0,
                packets_received: 0,
                errors_in: 0,
                errors_out: 0,
                timestamp: None,
            }),
    {
        InterfaceStats {
            interface_index: 0,
            bytes_sent: 0,
            bytes_received: 0,
            packets_sent: 0,
            packets_received: 0,
            errors_in: 0,
            errors_out: 0,
            timestamp: None,
        }
    }
}

impl Default for BandwidthStats {
    /// An all-zero sample.
    fn default() -> (result: Self)
        ensures
            result == (BandwidthStats {
                download_rate: 0,
                upload_rate: 0,
                total_downloaded: 0,
                total_uploaded: 0,
                peak_download_rate: 0,
                peak_upload_rate: 0,
            }),
    {
        BandwidthStats {
            download_rate: 0,
            upload_rate: 0,
            total_downloaded: 0,
            total_uploaded: 0,
            peak_download_rate: 0,
            peak_upload_rate: 0,
        }
    }
}

/// With both timestamps present, a strictly newer `current`, and counters that
/// did not decrease, the derived rates are exactly the byte deltas scaled to
/// bytes per second (rounded down), provided that scaling stays within `u64`;
/// rates are never negative by construction.
pub proof fn lemma_nondecreasing_counters_exact_rates(
    current: InterfaceStats,
    previous: InterfaceStats,
)
    requires
        current.timestamp is Some,
        previous.timestamp is Some,
        current.timestamp.unwrap() > previous.timestamp.unwrap(),
        current.bytes_received >= previous.bytes_received,
        current.bytes_sent >= previous.bytes_sent,
        (current.bytes_received - previous.bytes_received) * 1000 / (current.timestamp.unwrap()
            - previous.timestamp.unwrap()) <= u64::MAX,
        (current.bytes_sent - previous.bytes_sent) * 1000 / (current.timestamp.unwrap()
            - previous.timestamp.unwrap()) <= u64::MAX,
    ensures
        spec_calculate_bandwidth(current, previous) is Some,
        spec_calculate_bandwidth(current, previous).unwrap().download_rate == (current.bytes_received
            - previous.bytes_received) * 1000 / (current.timestamp.unwrap()
            - previous.timestamp.unwrap()),
        spec_calculate_bandwidth(current, previous).unwrap().upload_rate == (current.bytes_sent
            - previous.bytes_sent) * 1000 / (current.timestamp.unwrap()
            - previous.timestamp.unwrap()),
        spec_calculate_bandwidth(current, previous).unwrap().download_rate >= 0,
        spec_calculate_bandwidth(current, previous).unwrap().upload_rate >= 0,
{
}

/// With a whole number of seconds elapsed, the derived rate reads directly
/// as the byte delta divided by the elapsed seconds: the millisecond time
/// base changes nothing when the cadence is one sample per second.
pub proof fn lemma_whole_seconds_rate(
    current: InterfaceStats,
    previous: InterfaceStats,
    seconds: u64,
)
    requires
        current.timestamp is Some,
        previous.timestamp is Some,
        seconds > 0,
        current.timestamp.unwrap() - previous.timestamp.unwrap() == 1000 * seconds,
        current.bytes_received >= previous.bytes_received,
        current.bytes_sent >= previous.bytes_sent,
        (current.bytes_received - previous.bytes_received) / (seconds as int) <= u64::MAX,
        (current.bytes_sent - previous.bytes_sent) / (seconds as int) <= u64::MAX,
    ensures
        spec_calculate_bandwidth(current, previous) is Some,
        spec_calculate_bandwidth(current, previous).unwrap().download_rate == (
        current.bytes_received - previous.bytes_received) / (seconds as int),
        spec_calculate_bandwidth(current, previous).unwrap().upload_rate == (current.bytes_sent
            - previous.bytes_sent) / (seconds as int),
{
    let down_delta = (current.bytes_received - previous.bytes_received) as int;
    let up_delta = (current.bytes_sent - previous.bytes_sent) as int;
    vstd::arithmetic::div_mod::lemma_div_multiples_vanish_quotient(1000, down_delta, seconds as int);
    vstd::arithmetic::div_mod::lemma_div_multiples_vanish_quotient(1000, up_delta, seconds as int);
    assert(down_delta * 1000 == 1000 * down_delta);
    assert(up_delta * 1000 == 1000 * up_delta);
}

/// A counter that moved backwards (a simulated reset) contributes a delta
/// clamped to zero: the corresponding rate is exactly zero, never negative and
/// never undefined.
pub proof fn lemma_counter_reset_clamps_rate(current: InterfaceStats, previous: InterfaceStats)
    requires
        current.timestamp is Some,
        previous.timestamp is Some,
        current.timestamp.unwrap() > previous.timestamp.unwrap(),
    ensures
        spec_calculate_bandwidth(current, previous) is Some,
        current.bytes_received < previous.bytes_received ==> spec_calculate_bandwidth(
            current,
            previous,
        ).unwrap().download_rate == 0,
        current.bytes_sent < previous.bytes_sent ==> spec_calculate_bandwidth(
            current,
            previous,
        ).unwrap().upload_rate == 0,
{
}

/// When `current` is not strictly newer than `previous`, derivation yields no
/// sample at all: not a zero-valued sample and not an error.
pub proof fn lemma_non_positive_elapsed_yields_nothing(
    current: InterfaceStats,
    previous: InterfaceStats,
)
    requires
        current.timestamp is Some,
        previous.timestamp is Some,
        current.timestamp.unwrap() <= previous.timestamp.unwrap(),
    ensures
        spec_calculate_bandwidth(current, previous) is None,
{
}

/// Reads one interface's counters: looks the one-based handle up in the
/// discovered set and extracts its row from the text of `/proc/net/dev`.
pub fn get_interface_stats(
    interfaces: &Vec<NetworkInterface>,
    content: &str,
    interface_index: u32,
    captured_at: u64,
) -> (result: Result<InterfaceStats, AppError>)
    ensures
        !(1 <= interface_index && interface_index as int <= interfaces@.len()) ==> (result is Err
            && result->Err_0 is NetworkInterface && error_payload(result->Err_0)
            == "Interface index out of range"@),
        (1 <= interface_index && interface_index as int <= interfaces@.len()) ==> (result is Ok
            <==> spec_parse_proc_net_dev(
            content@,
            interfaces@[interface_index as int - 1].name@,
            interface_index,
            captured_at,
        ) is Some),
        (1 <= interface_index && interface_index as int <= interfaces@.len()) && result is Ok
            ==> result->Ok_0 == spec_parse_proc_net_dev(
            content@,
            interfaces@[interface_index as int - 1].name@,
            interface_index,
            captured_at,
        )->Some_0,
        (1 <= interface_index && interface_index as int <= interfaces@.len()) && result is Err
            ==> result->Err_0 is NetworkInterface && error_payload(result->Err_0)
            == spec_interface_not_found_message(interfaces@[interface_index as int - 1].name@),
{
    crate::linux_api::get_interface_statistics(interfaces, content, interface_index, captured_at)
}

} // verus!
