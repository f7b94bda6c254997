//! Human-readable formatting of byte counts and link speeds.

use vstd::prelude::*;
use vstd::arithmetic::div_mod::lemma_div_is_ordered_by_denominator;
use vstd::string::StringExecFns;
use crate::text::{dec_digit_char, digit_str, spec_u64_string, u64_to_string};

verus! {

/// A value scaled by `divisor` and printed with one rounded decimal digit:
/// the whole part's digits, a dot, and the rounded tenth (carrying into the
/// whole part when the tenths round up to ten).
pub open spec fn spec_one_decimal_string(value: int, divisor: int) -> Seq<char>
    recommends
        2 <= divisor,
        0 <= value,
{
    let whole = value / divisor;
    let frac10 = ((value % divisor) * 10 + divisor / 2) / divisor;
    if frac10 == 10 {
        spec_u64_string(whole + 1) + "."@ + seq![dec_digit_char(0)]
    } else {
        spec_u64_string(whole) + "."@ + seq![dec_digit_char(frac10)]
    }
}

/// What `format_bits_per_sec` prints: plain bits per second below a
/// thousand, then one-decimal kilo-, mega- or gigabits per second with
/// decimal (power-of-ten) units.
pub open spec fn spec_format_bits_per_sec(bits_per_sec: u64) -> Seq<char> {
    if bits_per_sec < 1000 {
        spec_u64_string(bits_per_sec as int) + " bps"@
    } else if bits_per_sec < 1000000 {
        spec_one_decimal_string(bits_per_sec as int, 1000) + " Kbps"@
    } else if bits_per_sec < 1000000000 {
        spec_one_decimal_string(bits_per_sec as int, 1000000) + " Mbps"@
    } else {
        spec_one_decimal_string(bits_per_sec as int, 1000000000) + " Gbps"@
    }
}

/// The scaled value with one rounded decimal digit.
fn one_decimal_string(value: u64, divisor: u64) -> (result: String)
    requires
        2 <= divisor <= 1000000000,
    ensures
        result@ == spec_one_decimal_string(value as int, divisor as int),
{
    let whole = value / divisor;
    let rem = value % divisor;
    let frac10 = (rem * 10 + divisor / 2) / divisor;
    proof {
        assert((rem as int * 10 + divisor as int / 2) / (divisor as int) <= 10)
            by (nonlinear_arith)
            requires
                rem < divisor,
                2 <= divisor,
        {}
    }
    if frac10 == 10 {
        proof {
            lemma_div_is_ordered_by_denominator(value as int, 2, divisor as int);
        }
        let mut result = u64_to_string(whole + 1);
        result.append(".");
        result.append(digit_str(0));
        result
    } else {
        let mut result = u64_to_string(whole);
        result.append(".");
        result.append(digit_str(frac10));
        result
    }
}

/// A link speed in bits per second as a short human-readable string, using
/// decimal units as is usual for link speeds.
pub fn format_bits_per_sec(bits_per_sec: u64) -> (result: String)
    ensures
        result@ == spec_format_bits_per_sec(bits_per_sec),
{
    if bits_per_sec < 1000 {
        let mut result = u64_to_string(bits_per_sec);
        result.append(" bps");
        result
    } else if bits_per_sec < 1000000 {
        let mut result = one_decimal_string(bits_per_sec, 1000);
        result.append(" Kbps");
        result
    } else if bits_per_sec < 1000000000 {
        let mut result = one_decimal_string(bits_per_sec, 1000000);
        result.append(" Mbps");
        result
    } else {
        let mut result = one_decimal_string(bits_per_sec, 1000000000);
        result.append(" Gbps");
        result
    }
}

/// Relies on bytesize's ByteSize::to_string_as: a byte count as a short
/// human-readable string with binary units. Display support only; nothing
/// in the engine depends on the exact text.
#[verifier::external_body]
pub fn format_bytes(bytes: u64) -> (result: String) {
    bytesize::ByteSize::b(bytes).to_string_as(true)
}

} // verus!
