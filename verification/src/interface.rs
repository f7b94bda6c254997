//! Network interface identity.
//!
//! A `NetworkInterface` is the process-lifetime-stable description of one
//! interface: an opaque integer handle, names, addresses, and static
//! classification flags. Values are created once at discovery and never
//! mutated afterwards.

use vstd::prelude::*;
use vstd::string::StringExecFns;
use crate::text::{contains_chars, contains_seq, to_chars};

verus! {

/// An IP address as plain values: four octets, or eight 16-bit segments.
#[derive(Debug, Clone, Copy, PartialEq, Eq)]
pub enum IpAddress {
    V4(u8, u8, u8, u8),
    V6([u16; 8]),
}

/// One network interface: stable handle, names, addresses and static flags.
#[derive(Debug, Clone)]
pub struct NetworkInterface {
    pub index: u32,
    pub name: String,
    pub description: String,
    pub mac_address: String,
    pub ip_addresses: Vec<IpAddress>,
    pub is_up: bool,
    pub is_loopback: bool,
    pub speed: u64,
}

/// An interface that takes part in monitoring: administratively up and not a
/// loopback device.
pub open spec fn spec_is_active(iface: NetworkInterface) -> bool {
    iface.is_up && !iface.is_loopback
}

/// The uppercase hexadecimal digit character for a value below sixteen.
pub open spec fn hex_digit_char(d: int) -> char {
    if d == 0 {
        '0'
    } else if d == 1 {
        '1'
    } else if d == 2 {
        '2'
    } else if d == 3 {
        '3'
    } else if d == 4 {
        '4'
    } else if d == 5 {
        '5'
    } else if d == 6 {
        '6'
    } else if d == 7 {
        '7'
    } else if d == 8 {
        '8'
    } else if d == 9 {
        '9'
    } else if d == 10 {
        'A'
    } else if d == 11 {
        'B'
    } else if d == 12 {
        'C'
    } else if d == 13 {
        'D'
    } else if d == 14 {
        'E'
    } else {
        'F'
    }
}

/// Two uppercase hexadecimal digits for one byte.
pub open spec fn byte_hex(b: u8) -> Seq<char> {
    seq![hex_digit_char(b as int / 16), hex_digit_char(b as int % 16)]
}

/// The MAC address string of the bytes from index `i` on: two hexadecimal
/// digits per byte, bytes separated by colons.
pub open spec fn spec_mac_from(bytes: Seq<u8>, i: int) -> Seq<char>
    decreases bytes.len() - i,
{
    if i < 0 || i >= bytes.len() {
        Seq::empty()
    } else if i == bytes.len() - 1 {
        byte_hex(bytes[i])
    } else {
        byte_hex(bytes[i]) + seq![':'] + spec_mac_from(bytes, i + 1)
    }
}

/// The MAC address string of a byte sequence.
pub open spec fn spec_mac_string(bytes: Seq<u8>) -> Seq<char> {
    spec_mac_from(bytes, 0)
}

/// The lowercase form of a character sequence, as `str::to_lowercase`
/// computes it.
pub uninterp spec fn lower_of(s: Seq<char>) -> Seq<char>;

/// An interface description that names a known virtualization technology,
/// compared case-insensitively.
pub open spec fn spec_is_virtual(description: Seq<char>) -> bool {
    ||| contains_seq(lower_of(description), "virtual"@)
    ||| contains_seq(lower_of(description), "vmware"@)
    ||| contains_seq(lower_of(description), "virtualbox"@)
    ||| contains_seq(lower_of(description), "hyper-v"@)
    ||| contains_seq(lower_of(description), "vpn"@)
    ||| contains_seq(lower_of(description), "tap"@)
    ||| contains_seq(lower_of(description), "tun"@)
}

/// Relies on str::to_lowercase: the result depends on the characters alone.
#[verifier::external_body]
fn to_lowercase_string(s: &str) -> (result: String)
    ensures
        result@ == lower_of(s@),
{
    s.to_lowercase()
}

/// A one-character string slice for a hexadecimal digit value.
fn hex_digit_str(d: u8) -> (result: &'static str)
    requires
        d < 16,
    ensures
        result@ == seq![hex_digit_char(d as int)],
{
    if d == 0 {
        proof {
            reveal_strlit("0");
            assert("0"@ =~= seq![hex_digit_char(0)]);
        }
        "0"
    } else if d == 1 {
        proof {
            reveal_strlit("1");
            assert("1"@ =~= seq![hex_digit_char(1)]);
        }
        "1"
    } else if d == 2 {
        proof {
            reveal_strlit("2");
            assert("2"@ =~= seq![hex_digit_char(2)]);
        }
        "2"
    } else if d == 3 {
        proof {
            reveal_strlit("3");
            assert("3"@ =~= seq![hex_digit_char(3)]);
        }
        "3"
    } else if d == 4 {
        proof {
            reveal_strlit("4");
            assert("4"@ =~= seq![hex_digit_char(4)]);
        }
        "4"
    } else if d == 5 {
        proof {
            reveal_strlit("5");
            assert("5"@ =~= seq![hex_digit_char(5)]);
        }
        "5"
    } else if d == 6 {
        proof {
            reveal_strlit("6");
            assert("6"@ =~= seq![hex_digit_char(6)]);
        }
        "6"
    } else if d == 7 {
        proof {
            reveal_strlit("7");
            assert("7"@ =~= seq![hex_digit_char(7)]);
        }
        "7"
    } else if d == 8 {
        proof {
            reveal_strlit("8");
            assert("8"@ =~= seq![hex_digit_char(8)]);
        }
        "8"
    } else if d == 9 {
        proof {
            reveal_strlit("9");
            assert("9"@ =~= seq![hex_digit_char(9)]);
        }
        "9"
    } else if d == 10 {
        proof {
            reveal_strlit("A");
            assert("A"@ =~= seq![hex_digit_char(10)]);
        }
        "A"
    } else if d == 11 {
        proof {
            reveal_strlit("B");
            assert("B"@ =~= seq![hex_digit_char(11)]);
        }
        "B"
    } else if d == 12 {
        proof {
            reveal_strlit("C");
            assert("C"@ =~= seq![hex_digit_char(12)]);
        }
        "C"
    } else if d == 13 {
        proof {
            reveal_strlit("D");
            assert("D"@ =~= seq![hex_digit_char(13)]);
        }
        "D"
    } else if d == 14 {
        proof {
            reveal_strlit("E");
            assert("E"@ =~= seq![hex_digit_char(14)]);
        }
        "E"
    } else {
        proof {
            reveal_strlit("F");
            assert("F"@ =~= seq![hex_digit_char(15)]);
        }
        "F"
    }
}

/// The MAC string of the bytes from index `i` on.
fn mac_from(bytes: &[u8], i: usize) -> (result: String)
    requires
        i <= bytes@.len(),
    ensures
        result@ == spec_mac_from(bytes@, i as int),
    decreases bytes@.len() - i,
{
    if i >= bytes.len() {
        String::new()
    } else {
        let b = bytes[i];
        let mut s = String::from_str(hex_digit_str(b / 16));
        s.append(hex_digit_str(b % 16));
        proof {
            assert(s@ =~= byte_hex(bytes@[i as int]));
        }
        if i + 1 < bytes.len() {
            proof {
                reveal_strlit(":");
            }
            s.append(":");
            let rest = mac_from(bytes, i + 1);
            s.append(rest.as_str());
            proof {
                assert(s@ =~= byte_hex(bytes@[i as int]) + seq![':'] + spec_mac_from(
                    bytes@,
                    i as int + 1,
                ));
            }
        }
        s
    }
}

impl NetworkInterface {
    /// A freshly discovered interface: handle and names set, everything else
    /// at its neutral value until the platform fills it in.
    pub fn new(index: u32, name: String, description: String) -> (result: Self)
        ensures
            result.index == index,
            result.name == name,
            result.description == description,
            result.mac_address@ == Seq::<char>::empty(),
            result.ip_addresses@ == Seq::<IpAddress>::empty(),
            !result.is_up,
            !result.is_loopback,
            result.speed == 0,
    {
        NetworkInterface {
            index,
            name,
            description,
            mac_address: String::new(),
            ip_addresses: Vec::new(),
            is_up: false,
            is_loopback: false,
            speed: 0,
        }
    }

    /// The bytes of a hardware address as the usual colon-separated
    /// uppercase hexadecimal string.
    pub fn format_mac_address(bytes: &[u8]) -> (result: String)
        ensures
            result@ == spec_mac_string(bytes@),
    {
        mac_from(bytes, 0)
    }

    /// Whether the description names a known virtualization technology,
    /// compared case-insensitively.
    pub fn is_virtual(&self) -> (result: bool)
        ensures
            result == spec_is_virtual(self.description@),
    {
        let lower = to_lowercase_string(self.description.as_str());
        let lower_chars = to_chars(lower.as_str());
        let c1 = contains_chars(&lower_chars, &to_chars("virtual"));
        let c2 = contains_chars(&lower_chars, &to_chars("vmware"));
        let c3 = contains_chars(&lower_chars, &to_chars("virtualbox"));
        let c4 = contains_chars(&lower_chars, &to_chars("hyper-v"));
        let c5 = contains_chars(&lower_chars, &to_chars("vpn"));
        let c6 = contains_chars(&lower_chars, &to_chars("tap"));
        let c7 = contains_chars(&lower_chars, &to_chars("tun"));
        c1 || c2 || c3 || c4 || c5 || c6 || c7
    }

    /// The name shown to the user: the description when there is one, the
    /// bare interface name otherwise.
    pub fn display_name(&self) -> (result: String)
        ensures
            result@ == (if self.description@.len() > 0 {
                self.description@
            } else {
                self.name@
            }),
    {
        if !self.description.as_str().is_empty() {
            self.description.clone()
        } else {
            self.name.clone()
        }
    }
}

} // verus!
