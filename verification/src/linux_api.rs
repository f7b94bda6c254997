//! Interpretation of Linux network counter text.
//!
//! The platform collaborator reads `/proc/net/dev` and the per-interface
//! sysfs attribute files; everything here works on that text as plain
//! characters. `parse_proc_net_dev` extracts one interface's counters from
//! the counter table; `interface_from_sys_attrs` interprets the sysfs
//! attribute values into an interface description.

use vstd::prelude::*;
use vstd::string::StrSliceExecFns;
use vstd::string::StringExecFns;
use crate::error::{error_payload, AppError};
use crate::interface::{IpAddress, NetworkInterface};
use crate::stats::InterfaceStats;
use crate::text::{
    find_char_from, find_char_in_range, lemma_find_char_from, parse_u64, range_equals,
    spec_fields, spec_parse_u64, spec_trim, split_fields, subrange_vec, to_chars, trim_range,
};

verus! {

/// `find_char_from` is pinned down by its characterization: no occurrence
/// before `e`, and an occurrence at `e` unless `e` is the end.
pub proof fn lemma_find_char_from_unique(s: Seq<char>, i: int, e: int, c: char)
    requires
        0 <= i <= e <= s.len(),
        forall|k: int| i <= k < e ==> s[k] != c,
        e < s.len() ==> s[e] == c,
    ensures
        find_char_from(s, i, c) == e,
    decreases e - i,
{
    if i < e {
        lemma_find_char_from_unique(s, i + 1, e, c);
    }
}

/// The lines of `s` from index `i` on: maximal line-feed-free stretches, with
/// the line feeds themselves dropped. A trailing line feed contributes a
/// final empty line.
pub open spec fn spec_lines_from(s: Seq<char>, i: int) -> Seq<Seq<char>>
    decreases s.len() - i,
        when 0 <= i <= s.len()
    via spec_lines_from_decreases
{
    let e = find_char_from(s, i, '\n');
    if e >= s.len() {
        seq![s.subrange(i, s.len() as int)]
    } else {
        seq![s.subrange(i, e)] + spec_lines_from(s, e + 1)
    }
}

#[via_fn]
proof fn spec_lines_from_decreases(s: Seq<char>, i: int) {
    lemma_find_char_from(s, i, '\n');
}

/// The lines of `s`, split at line feeds.
pub open spec fn spec_lines(s: Seq<char>) -> Seq<Seq<char>> {
    spec_lines_from(s, 0)
}

/// A counter field's value: the denoted number, or zero when the field is
/// not a plain decimal number that fits in a `u64`.
pub open spec fn spec_field_u64(f: Seq<char>) -> u64 {
    match spec_parse_u64(f) {
        Some(v) => v,
        None => 0,
    }
}

/// What one line of the counter table contributes for `target`: a snapshot
/// when the line's interface name (before the colon, trimmed) equals
/// `target` and at least sixteen counter fields follow the colon; nothing
/// otherwise. Fields are, in order: receive bytes, packets, errors at
/// offsets 0 to 2, transmit bytes, packets, errors at offsets 8 to 10.
pub open spec fn spec_line_stats(
    line: Seq<char>,
    target: Seq<char>,
    interface_index: u32,
    captured_at: u64,
) -> Option<InterfaceStats> {
    let t = spec_trim(line);
    let c = find_char_from(t, 0, ':');
    if t.len() == 0 || c >= t.len() {
        None
    } else if spec_trim(t.subrange(0, c)) != target {
        None
    } else {
        let fields = spec_fields(t.subrange(c + 1, t.len() as int));
        if fields.len() >= 16 {
            Some(
                InterfaceStats {
                    interface_index,
                    bytes_sent: spec_field_u64(fields[8]),
                    bytes_received: spec_field_u64(fields[0]),
                    packets_sent: spec_field_u64(fields[9]),
                    packets_received: spec_field_u64(fields[1]),
                    errors_in: spec_field_u64(fields[2]),
                    errors_out: spec_field_u64(fields[10]),
                    timestamp: Some(captured_at),
                },
            )
        } else {
            None
        }
    }
}

/// The first line of `lines` that yields a snapshot for `target` decides the
/// result; later lines are not consulted.
pub open spec fn spec_scan_lines(
    lines: Seq<Seq<char>>,
    target: Seq<char>,
    interface_index: u32,
    captured_at: u64,
) -> Option<InterfaceStats>
    decreases lines.len(),
{
    if lines.len() == 0 {
        None
    } else {
        match spec_line_stats(lines[0], target, interface_index, captured_at) {
            Some(s) => Some(s),
            None => spec_scan_lines(lines.drop_first(), target, interface_index, captured_at),
        }
    }
}

/// What `parse_proc_net_dev` extracts: the first matching counter line after
/// the two header lines, or nothing when no line matches.
pub open spec fn spec_parse_proc_net_dev(
    content: Seq<char>,
    target: Seq<char>,
    interface_index: u32,
    captured_at: u64,
) -> Option<InterfaceStats> {
    let lines = spec_lines(content);
    if lines.len() <= 2 {
        None
    } else {
        spec_scan_lines(lines.skip(2), target, interface_index, captured_at)
    }
}

/// The message `parse_proc_net_dev` reports when no line matches.
pub open spec fn spec_interface_not_found_message(target: Seq<char>) -> Seq<char> {
    "Interface '"@ + target + "' not found in /proc/net/dev"@
}

/// The line boundaries of `chars`: one `(start, end)` pair per line, in
/// order, line feeds excluded.
fn split_line_ranges(chars: &Vec<char>) -> (result: Vec<(usize, usize)>)
    ensures
        result@.map_values(
            |p: (usize, usize)| chars@.subrange(p.0 as int, p.1 as int),
        ) == spec_lines(chars@),
        forall|k: int| 0 <= k < result@.len() ==> (#[trigger] result@[k]).0 <= result@[k].1
            <= chars@.len(),
{
    let n = chars.len();
    let mut result: Vec<(usize, usize)> = Vec::new();
    let mut start: usize = 0;
    let mut e = find_char_in_range(chars, 0, n, '\n');
    proof {
        lemma_line_boundary(chars@, 0, e as int);
    }
    result.push((start, e));
    while e < n
        invariant
            start <= e <= n,
            n == chars@.len(),
            result@.len() >= 1,
            forall|k: int| 0 <= k < result@.len() ==> (#[trigger] result@[k]).0 <= result@[k].1
                <= chars@.len(),
            result@.map_values(|p: (usize, usize)| chars@.subrange(p.0 as int, p.1 as int)) + (
            if e < n {
                spec_lines_from(chars@, e as int + 1)
            } else {
                Seq::<Seq<char>>::empty()
            }) == spec_lines(chars@),
        decreases n - e,
    {
        start = e + 1;
        e = find_char_in_range(chars, start, n, '\n');
        proof {
            lemma_line_boundary(chars@, start as int, e as int);
        }
        let ghost old_mapped = result@.map_values(
            |p: (usize, usize)| chars@.subrange(p.0 as int, p.1 as int),
        );
        result.push((start, e));
        proof {
            assert(result@.map_values(
                |p: (usize, usize)| chars@.subrange(p.0 as int, p.1 as int),
            ) =~= old_mapped.push(chars@.subrange(start as int, e as int)));
            if e < n {
                assert(old_mapped.push(chars@.subrange(start as int, e as int))
                    + spec_lines_from(chars@, e as int + 1) =~= old_mapped + spec_lines_from(
                    chars@,
                    start as int,
                ));
            } else {
                assert(old_mapped.push(chars@.subrange(start as int, e as int))
                    + Seq::<Seq<char>>::empty() =~= old_mapped + spec_lines_from(
                    chars@,
                    start as int,
                ));
            }
        }
    }
    result
}

/// Connects the result of an executable line-feed search over the full
/// vector to `find_char_from` on the full sequence, and unfolds one step of
/// `spec_lines_from` at `start`.
proof fn lemma_line_boundary(s: Seq<char>, start: int, e: int)
    requires
        0 <= start <= s.len(),
        start <= e <= s.len(),
        e - start == find_char_from(s.subrange(start, s.len() as int), 0, '\n'),
    ensures
        find_char_from(s, start, '\n') == e,
        e >= s.len() ==> spec_lines_from(s, start) == seq![s.subrange(start, s.len() as int)],
        e < s.len() ==> spec_lines_from(s, start) == seq![s.subrange(start, e)]
            + spec_lines_from(s, e + 1),
{
    let sub = s.subrange(start, s.len() as int);
    lemma_find_char_from(sub, 0, '\n');
    assert forall|k: int| start <= k < e implies s[k] != '\n' by {
        assert(sub[k - start] == s[k]);
    }
    if e < s.len() {
        assert(sub[e - start] == s[e]);
    }
    lemma_find_char_from_unique(s, start, e, '\n');
}

/// One line's contribution for `target`, computed over the line's range
/// inside `chars`.
fn line_stats(
    chars: &Vec<char>,
    start: usize,
    end: usize,
    target: &Vec<char>,
    interface_index: u32,
    captured_at: u64,
) -> (result: Option<InterfaceStats>)
    requires
        start <= end <= chars@.len(),
    ensures
        result == spec_line_stats(
            chars@.subrange(start as int, end as int),
            target@,
            interface_index,
            captured_at,
        ),
{
    let ghost line = chars@.subrange(start as int, end as int);
    let (lo, hi) = trim_range(chars, start, end);
    let ghost t = spec_trim(line);
    proof {
        assert(t == chars@.subrange(lo as int, hi as int));
    }
    if lo == hi {
        return None;
    }
    let colon = find_char_in_range(chars, lo, hi, ':');
    proof {
        assert(chars@.subrange(lo as int, hi as int) =~= t.subrange(0, t.len() as int));
        assert(t.subrange(0, t.len() as int) =~= t);
        assert(find_char_from(t, 0, ':') == colon - lo);
    }
    if colon == hi {
        return None;
    }
    let (name_lo, name_hi) = trim_range(chars, lo, colon);
    proof {
        assert(chars@.subrange(lo as int, colon as int) =~= t.subrange(0, colon - lo));
    }
    if !range_equals(chars, name_lo, name_hi, target) {
        return None;
    }
    let stats_str = subrange_vec(chars, colon + 1, hi);
    proof {
        assert(stats_str@ =~= t.subrange(colon - lo + 1, t.len() as int));
    }
    let fields = split_fields(&stats_str);
    let ghost spec_fs = spec_fields(t.subrange(colon as int - lo as int + 1, t.len() as int));
    proof {
        assert(fields@.map_values(|v: Vec<char>| v@) == spec_fs);
        assert(fields@.len() == spec_fs.len());
    }
    if fields.len() >= 16 {
        proof {
            assert(fields@.map_values(|v: Vec<char>| v@)[0] == fields@[0]@);
            assert(fields@.map_values(|v: Vec<char>| v@)[1] == fields@[1]@);
            assert(fields@.map_values(|v: Vec<char>| v@)[2] == fields@[2]@);
            assert(fields@.map_values(|v: Vec<char>| v@)[8] == fields@[8]@);
            assert(fields@.map_values(|v: Vec<char>| v@)[9] == fields@[9]@);
            assert(fields@.map_values(|v: Vec<char>| v@)[10] == fields@[10]@);
        }
        Some(
            InterfaceStats {
                interface_index,
                bytes_sent: field_u64(&fields[8]),
                bytes_received: field_u64(&fields[0]),
                packets_sent: field_u64(&fields[9]),
                packets_received: field_u64(&fields[1]),
                errors_in: field_u64(&fields[2]),
                errors_out: field_u64(&fields[10]),
                timestamp: Some(captured_at),
            },
        )
    } else {
        None
    }
}

/// A counter field's value, zero when it is not a plain decimal number.
fn field_u64(f: &Vec<char>) -> (result: u64)
    ensures
        result == spec_field_u64(f@),
{
    match crate::text::parse_u64(f) {
        Some(v) => v,
        None => 0,
    }
}

/// Extracts the counters of the interface named `target_name` from the text
/// of `/proc/net/dev`. The first two lines are the table header; the first
/// later line whose name matches decides the result. When no line matches,
/// the interface is reported as not found.
pub fn parse_proc_net_dev(
    target_name: &str,
    content: &str,
    interface_index: u32,
    captured_at: u64,
) -> (result: Result<InterfaceStats, AppError>)
    ensures
        result is Ok <==> spec_parse_proc_net_dev(
            content@,
            target_name@,
            interface_index,
            captured_at,
        ) is Some,
        result is Ok ==> result->Ok_0 == spec_parse_proc_net_dev(
            content@,
            target_name@,
            interface_index,
            captured_at,
        )->Some_0,
        result is Err ==> result->Err_0 is NetworkInterface && error_payload(result->Err_0)
            == spec_interface_not_found_message(target_name@),
{
    let chars = to_chars(content);
    let target = to_chars(target_name);
    let lines = split_line_ranges(&chars);
    let ghost ls = spec_lines(chars@);
    let ghost mapped = lines@.map_values(
        |p: (usize, usize)| chars@.subrange(p.0 as int, p.1 as int),
    );
    if lines.len() > 2 {
        let mut k: usize = 2;
        while k < lines.len()
            invariant
                2 <= k <= lines@.len(),
                chars@ == content@,
                target@ == target_name@,
                mapped == lines@.map_values(
                    |p: (usize, usize)| chars@.subrange(p.0 as int, p.1 as int),
                ),
                mapped == ls,
                ls == spec_lines(chars@),
                lines@.len() == ls.len(),
                forall|j: int| 0 <= j < lines@.len() ==> (#[trigger] lines@[j]).0 <= lines@[j].1
                    <= chars@.len(),
                spec_scan_lines(ls.skip(2), target@, interface_index, captured_at)
                    == spec_scan_lines(ls.skip(k as int), target@, interface_index, captured_at),
            decreases lines@.len() - k,
        {
            let (line_start, line_end) = lines[k];
            let outcome = line_stats(
                &chars,
                line_start,
                line_end,
                &target,
                interface_index,
                captured_at,
            );
            proof {
                assert(mapped[k as int] == chars@.subrange(
                    lines@[k as int].0 as int,
                    lines@[k as int].1 as int,
                ));
                assert(ls.skip(k as int)[0] == ls[k as int]);
                assert(ls.skip(k as int).drop_first() =~= ls.skip(k as int + 1));
            }
            match outcome {
                Some(stats) => {
                    return Ok(stats);
                },
                None => {
                },
            }
            k = k + 1;
        }
        proof {
            assert(ls.skip(k as int) =~= Seq::<Seq<char>>::empty());
        }
    }
    let mut msg = String::from_str("Interface '");
    msg.append(target_name);
    msg.append("' not found in /proc/net/dev");
    Err(AppError::NetworkInterface(msg))
}

/// The view of an optional attribute file's text.
pub open spec fn opt_view(o: Option<&str>) -> Option<Seq<char>> {
    match o {
        Some(s) => Some(s@),
        None => None,
    }
}

/// An `operstate` attribute that reads `up` after trimming.
pub open spec fn spec_sys_is_up(operstate: Option<Seq<char>>) -> bool {
    match operstate {
        Some(s) => spec_trim(s) == "up"@,
        None => false,
    }
}

/// A `type` attribute that reads `772` after trimming: the ARPHRD code of a
/// loopback device.
pub open spec fn spec_sys_is_loopback(iface_type: Option<Seq<char>>) -> bool {
    match iface_type {
        Some(s) => spec_trim(s) == "772"@,
        None => false,
    }
}

/// The uppercase form of a character sequence, as `str::to_uppercase`
/// computes it.
pub uninterp spec fn upper_of(s: Seq<char>) -> Seq<char>;

/// The hardware address taken from an `address` attribute: the trimmed text
/// uppercased, unless it is empty or the all-zero placeholder, which leave
/// the address empty.
pub open spec fn spec_sys_mac(mac: Option<Seq<char>>) -> Seq<char> {
    match mac {
        Some(m) => if spec_trim(m).len() > 0 && spec_trim(m) != "00:00:00:00:00:00"@ {
            upper_of(spec_trim(m))
        } else {
            Seq::<char>::empty()
        },
        None => Seq::<char>::empty(),
    }
}

/// The link speed in bits per second taken from a `speed` attribute: the
/// trimmed decimal value is megabits per second; an unreadable or
/// unparseable value, or one too large to scale, falls back to a nominal
/// one gigabit per second.
pub open spec fn spec_sys_speed(speed: Option<Seq<char>>) -> u64 {
    match speed {
        Some(s) => match spec_parse_u64(spec_trim(s)) {
            Some(mbps) => if mbps <= u64::MAX / 1000000 {
                (mbps * 1000000) as u64
            } else {
                1000000000
            },
            None => 1000000000,
        },
        None => 1000000000,
    }
}

/// Relies on str::to_uppercase: the result depends on the characters alone.
#[verifier::external_body]
fn to_uppercase_string(s: &str) -> (result: String)
    ensures
        result@ == upper_of(s@),
{
    s.to_uppercase()
}

/// Builds the description of one interface from its sysfs attribute files,
/// each given as the file's text where it could be read. The interface
/// carries the file name as both name and description; addresses are filled
/// in separately by the platform collaborator.
pub fn interface_from_sys_attrs(
    index: u32,
    name: &str,
    operstate: Option<&str>,
    iface_type: Option<&str>,
    mac: Option<&str>,
    speed: Option<&str>,
) -> (result: NetworkInterface)
    ensures
        result.index == index,
        result.name@ == name@,
        result.description@ == name@,
        result.is_up == spec_sys_is_up(opt_view(operstate)),
        result.is_loopback == spec_sys_is_loopback(opt_view(iface_type)),
        result.mac_address@ == spec_sys_mac(opt_view(mac)),
        result.speed == spec_sys_speed(opt_view(speed)),
        result.ip_addresses@ == Seq::<IpAddress>::empty(),
{
    let mut iface = NetworkInterface::new(index, String::from_str(name), String::from_str(name));
    match operstate {
        Some(s) => {
            let chars = to_chars(s);
            let n = chars.len();
            proof {
                assert(chars@.subrange(0, n as int) =~= chars@);
            }
            let (lo, hi) = trim_range(&chars, 0, n);
            iface.is_up = range_equals(&chars, lo, hi, &to_chars("up"));
        },
        None => {},
    }
    match iface_type {
        Some(s) => {
            let chars = to_chars(s);
            let n = chars.len();
            proof {
                assert(chars@.subrange(0, n as int) =~= chars@);
            }
            let (lo, hi) = trim_range(&chars, 0, n);
            iface.is_loopback = range_equals(&chars, lo, hi, &to_chars("772"));
        },
        None => {},
    }
    match mac {
        Some(m) => {
            let chars = to_chars(m);
            let n = chars.len();
            proof {
                assert(chars@.subrange(0, n as int) =~= chars@);
            }
            let (lo, hi) = trim_range(&chars, 0, n);
            let zero = to_chars("00:00:00:00:00:00");
            if hi > lo && !range_equals(&chars, lo, hi, &zero) {
                let trimmed = m.substring_char(lo, hi);
                iface.mac_address = to_uppercase_string(trimmed);
            }
        },
        None => {},
    }
    match speed {
        Some(s) => {
            let chars = to_chars(s);
            let n = chars.len();
            proof {
                assert(chars@.subrange(0, n as int) =~= chars@);
            }
            let (lo, hi) = trim_range(&chars, 0, n);
            let token = subrange_vec(&chars, lo, hi);
            match parse_u64(&token) {
                Some(mbps) => {
                    if mbps <= u64::MAX / 1000000 {
                        iface.speed = mbps * 1000000;
                    } else {
                        iface.speed = 1000000000;
                    }
                },
                None => {
                    iface.speed = 1000000000;
                },
            }
        },
        None => {
            iface.speed = 1000000000;
        },
    }
    iface
}

/// Looks up the interface with the given one-based handle in the discovered
/// set and extracts its counters from the text of `/proc/net/dev`. A handle
/// of zero or past the set is out of range.
pub fn get_interface_statistics(
    interfaces: &Vec<NetworkInterface>,
    content: &str,
    interface_index: u32,
    captured_at: u64,
) -> (result: Result<InterfaceStats, AppError>)
    ensures
        !(1 <= interface_index && interface_index as int <= interfaces@.len()) ==> (result is Err
            && result->Err_0 is NetworkInterface && error_payload(result->Err_0)
            == "Interface index out of range"@),
        (1 <= interface_index && interface_index as int <= interfaces@.len()) ==> (result is Ok
            <==> spec_parse_proc_net_dev(
            content@,
            interfaces@[interface_index as int - 1].name@,
            interface_index,
            captured_at,
        ) is Some),
        (1 <= interface_index && interface_index as int <= interfaces@.len()) && result is Ok
            ==> result->Ok_0 == spec_parse_proc_net_dev(
            content@,
            interfaces@[interface_index as int - 1].name@,
            interface_index,
            captured_at,
        )->Some_0,
        (1 <= interface_index && interface_index as int <= interfaces@.len()) && result is Err
            ==> result->Err_0 is NetworkInterface && error_payload(result->Err_0)
            == spec_interface_not_found_message(interfaces@[interface_index as int - 1].name@),
{
    if interface_index == 0 || interface_index as usize > interfaces.len() {
        return Err(
            AppError::NetworkInterface(String::from_str("Interface index out of range")),
        );
    }
    let target = &interfaces[(interface_index - 1) as usize];
    parse_proc_net_dev(target.name.as_str(), content, interface_index, captured_at)
}

} // verus!
