//! Character-level text utilities.
//!
//! The engine's inputs (Linux counter files, sysfs attribute files) are plain
//! ASCII text. These helpers work on explicit character vectors so that
//! trimming, tokenizing and number parsing can be specified and verified
//! character by character.

use vstd::prelude::*;
use vstd::string::*;

verus! {

/// ASCII whitespace as it occurs in the counter and attribute files: space,
/// tab, carriage return and line feed.
pub open spec fn is_space(c: char) -> bool {
    c == ' ' || c == '\t' || c == '\r' || c == '\n'
}

/// An ASCII decimal digit.
pub open spec fn is_dec_digit(c: char) -> bool {
    48 <= c as u32 && c as u32 <= 57
}

/// The numeric value of a decimal digit character.
pub open spec fn digit_val(c: char) -> int {
    c as u32 - 48
}

/// Every character of `s` is a decimal digit.
pub open spec fn all_digits(s: Seq<char>) -> bool {
    forall|i: int| 0 <= i < s.len() ==> is_dec_digit(#[trigger] s[i])
}

/// The number denoted by a digit sequence, most significant digit first.
pub open spec fn dec_value(s: Seq<char>) -> int
    decreases s.len(),
{
    if s.len() == 0 {
        0
    } else {
        dec_value(s.drop_last()) * 10 + digit_val(s.last())
    }
}

/// What `parse_u64` returns: the denoted value for a non-empty all-digit
/// sequence whose value fits in a `u64`, and nothing otherwise.
pub open spec fn spec_parse_u64(s: Seq<char>) -> Option<u64> {
    if s.len() > 0 && all_digits(s) && dec_value(s) <= u64::MAX {
        Some(dec_value(s) as u64)
    } else {
        None
    }
}

/// `p` occurs as a contiguous substring of `s`.
pub open spec fn contains_seq(s: Seq<char>, p: Seq<char>) -> bool {
    exists|i: int| 0 <= i && i + p.len() <= s.len() && #[trigger] s.subrange(i, i + p.len()) == p
}

/// The characters of `s` as a vector.
pub fn to_chars(s: &str) -> (result: Vec<char>)
    ensures
        result@ == s@,
{
    let n = s.unicode_len();
    let mut result: Vec<char> = Vec::new();
    let mut i: usize = 0;
    while i < n
        invariant
            i <= n,
            n == s@.len(),
            result@ == s@.subrange(0, i as int),
        decreases n - i,
    {
        result.push(s.get_char(i));
        i = i + 1;
        proof {
            assert(result@ =~= s@.subrange(0, i as int));
        }
    }
    proof {
        assert(result@ =~= s@);
    }
    result
}

/// The characters of `chars` between `start` (inclusive) and `end`
/// (exclusive), as a fresh vector.
pub fn subrange_vec(chars: &Vec<char>, start: usize, end: usize) -> (result: Vec<char>)
    requires
        start <= end <= chars@.len(),
    ensures
        result@ == chars@.subrange(start as int, end as int),
{
    let mut result: Vec<char> = Vec::new();
    let mut i: usize = start;
    while i < end
        invariant
            start <= i <= end <= chars@.len(),
            result@ == chars@.subrange(start as int, i as int),
        decreases end - i,
    {
        result.push(chars[i]);
        i = i + 1;
        proof {
            assert(result@ =~= chars@.subrange(start as int, i as int));
        }
    }
    proof {
        assert(result@ =~= chars@.subrange(start as int, end as int));
    }
    result
}

/// The decimal value of a non-empty all-digit sequence, or nothing when the
/// sequence is empty, holds a non-digit, or denotes a value over `u64::MAX`.
pub fn parse_u64(chars: &Vec<char>) -> (result: Option<u64>)
    ensures
        result == spec_parse_u64(chars@),
{
    let n = chars.len();
    if n == 0 {
        return None;
    }
    let mut acc: u64 = 0;
    let mut i: usize = 0;
    while i < n
        invariant
            i <= n,
            n == chars@.len(),
            all_digits(chars@.subrange(0, i as int)),
            acc == dec_value(chars@.subrange(0, i as int)),
        decreases n - i,
    {
        let c = chars[i];
        let code = c as u32;
        if code < 48 || code > 57 {
            proof {
                assert(!is_dec_digit(chars@[i as int]));
                assert(!all_digits(chars@));
            }
            return None;
        }
        let d = (code - 48) as u64;
        if acc > (u64::MAX - d) / 10 {
            proof {
                lemma_dec_value_append_digit(chars@, i as int);
                assert(acc * 10 + d > u64::MAX) by (nonlinear_arith)
                    requires
                        acc > (u64::MAX - d) / 10,
                        d <= 9,
                {}
                if all_digits(chars@) {
                    lemma_dec_value_prefix_monotone(chars@, i as int + 1, chars@.len() as int);
                    assert(chars@.subrange(0, chars@.len() as int) =~= chars@);
                }
            }
            return None;
        }
        proof {
            lemma_dec_value_append_digit(chars@, i as int);
            assert(acc * 10 + d <= u64::MAX) by (nonlinear_arith)
                requires
                    acc <= (u64::MAX - d) / 10,
                    d <= 9,
            {}
        }
        acc = acc * 10 + d;
        i = i + 1;
    }
    proof {
        assert(chars@.subrange(0, n as int) =~= chars@);
    }
    Some(acc)
}

/// Extending an all-digit prefix by one digit multiplies its value by ten and
/// adds the digit.
proof fn lemma_dec_value_append_digit(s: Seq<char>, i: int)
    requires
        0 <= i < s.len(),
    ensures
        dec_value(s.subrange(0, i + 1)) == dec_value(s.subrange(0, i)) * 10 + digit_val(s[i]),
{
    assert(s.subrange(0, i + 1).drop_last() =~= s.subrange(0, i));
    assert(s.subrange(0, i + 1).last() == s[i]);
}

/// The value of an all-digit sequence never falls below the value of any of
/// its prefixes.
proof fn lemma_dec_value_prefix_monotone(s: Seq<char>, i: int, j: int)
    requires
        0 <= i <= j <= s.len(),
        all_digits(s),
        dec_value(s.subrange(0, i)) >= 0,
    ensures
        dec_value(s.subrange(0, j)) >= dec_value(s.subrange(0, i)),
    decreases j - i,
{
    if i < j {
        lemma_dec_value_append_digit(s, i);
        assert(is_dec_digit(s[i]));
        assert(dec_value(s.subrange(0, i)) * 10 >= dec_value(s.subrange(0, i)))
            by (nonlinear_arith)
            requires
                dec_value(s.subrange(0, i)) >= 0,
        {}
        lemma_dec_value_prefix_monotone(s, i + 1, j);
    } else {
        assert(s.subrange(0, i) =~= s.subrange(0, j));
    }
}

/// Whether `p` occurs as a contiguous substring of `s`.
pub fn contains_chars(s: &Vec<char>, p: &Vec<char>) -> (result: bool)
    ensures
        result == contains_seq(s@, p@),
{
    let n = s.len();
    let m = p.len();
    if m > n {
        proof {
            assert(!contains_seq(s@, p@));
        }
        return false;
    }
    if m == 0 {
        proof {
            assert(s@.subrange(0, 0 + p@.len() as int) =~= p@);
        }
        return true;
    }
    let mut i: usize = 0;
    while i <= n - m
        invariant
            1 <= m <= n,
            n == s@.len(),
            m == p@.len(),
            i <= n - m + 1,
            forall|k: int| 0 <= k < i ==> #[trigger] s@.subrange(k, k + m as int) != p@,
        decreases n - i,
    {
        let mut j: usize = 0;
        let mut matches = true;
        while j < m
            invariant
                i + m <= n,
                n == s@.len(),
                m == p@.len(),
                j <= m,
                matches ==> s@.subrange(i as int, i as int + j as int) == p@.subrange(0, j as int),
                !matches ==> s@.subrange(i as int, i as int + m as int) != p@,
            decreases m - j,
        {
            if matches {
                if s[i + j] != p[j] {
                    proof {
                        assert(s@.subrange(i as int, i as int + m as int)[j as int] != p@[j as int]);
                    }
                    matches = false;
                } else {
                    proof {
                        assert(s@.subrange(i as int, i as int + (j + 1) as int) =~= s@.subrange(
                            i as int,
                            i as int + j as int,
                        ).push(s@[i as int + j as int]));
                        assert(p@.subrange(0, (j + 1) as int) =~= p@.subrange(0, j as int).push(
                            p@[j as int],
                        ));
                    }
                }
            }
            j = j + 1;
        }
        if matches {
            proof {
                assert(s@.subrange(i as int, i as int + m as int) == p@.subrange(0, m as int));
                assert(p@.subrange(0, m as int) =~= p@);
            }
            return true;
        }
        i = i + 1;
    }
    proof {
        assert(forall|k: int| 0 <= k && k + p@.len() <= s@.len() ==> #[trigger] s@.subrange(
            k,
            k + p@.len(),
        ) != p@);
    }
    false
}

/// Exec mirror of `is_space`.
pub fn char_is_space(c: char) -> (result: bool)
    ensures
        result == is_space(c),
{
    c == ' ' || c == '\t' || c == '\r' || c == '\n'
}

/// `s` with leading whitespace removed.
pub open spec fn trim_front(s: Seq<char>) -> Seq<char>
    decreases s.len(),
{
    if s.len() > 0 && is_space(s[0]) {
        trim_front(s.drop_first())
    } else {
        s
    }
}

/// `s` with trailing whitespace removed.
pub open spec fn trim_back(s: Seq<char>) -> Seq<char>
    decreases s.len(),
{
    if s.len() > 0 && is_space(s.last()) {
        trim_back(s.drop_last())
    } else {
        s
    }
}

/// `s` with whitespace removed from both ends.
pub open spec fn spec_trim(s: Seq<char>) -> Seq<char> {
    trim_back(trim_front(s))
}

/// Narrows `[start, end)` to the whitespace-trimmed core of that range.
pub fn trim_range(chars: &Vec<char>, start: usize, end: usize) -> (result: (usize, usize))
    requires
        start <= end <= chars@.len(),
    ensures
        start <= result.0 <= result.1 <= end,
        chars@.subrange(result.0 as int, result.1 as int) == spec_trim(
            chars@.subrange(start as int, end as int),
        ),
{
    let mut lo = start;
    while lo < end && char_is_space(chars[lo])
        invariant
            start <= lo <= end <= chars@.len(),
            trim_front(chars@.subrange(start as int, end as int)) == trim_front(
                chars@.subrange(lo as int, end as int),
            ),
        decreases end - lo,
    {
        proof {
            assert(chars@.subrange(lo as int, end as int)[0] == chars@[lo as int]);
            assert(chars@.subrange(lo as int, end as int).drop_first() =~= chars@.subrange(
                lo as int + 1,
                end as int,
            ));
        }
        lo = lo + 1;
    }
    proof {
        if lo < end {
            assert(chars@.subrange(lo as int, end as int)[0] == chars@[lo as int]);
        }
        assert(trim_front(chars@.subrange(lo as int, end as int)) == chars@.subrange(
            lo as int,
            end as int,
        ));
    }
    let mut hi = end;
    while hi > lo && char_is_space(chars[hi - 1])
        invariant
            lo <= hi <= end <= chars@.len(),
            trim_back(chars@.subrange(lo as int, end as int)) == trim_back(
                chars@.subrange(lo as int, hi as int),
            ),
        decreases hi - lo,
    {
        proof {
            assert(chars@.subrange(lo as int, hi as int).last() == chars@[hi as int - 1]);
            assert(chars@.subrange(lo as int, hi as int).drop_last() =~= chars@.subrange(
                lo as int,
                hi as int - 1,
            ));
        }
        hi = hi - 1;
    }
    proof {
        if hi > lo {
            assert(chars@.subrange(lo as int, hi as int).last() == chars@[hi as int - 1]);
        }
        assert(trim_back(chars@.subrange(lo as int, hi as int)) == chars@.subrange(
            lo as int,
            hi as int,
        ));
    }
    (lo, hi)
}

/// Index of the first occurrence of `c` in `s` at or after `i`, or `s.len()`
/// when there is none.
pub open spec fn find_char_from(s: Seq<char>, i: int, c: char) -> int
    decreases s.len() - i,
{
    if i < 0 || i >= s.len() {
        s.len() as int
    } else if s[i] == c {
        i
    } else {
        find_char_from(s, i + 1, c)
    }
}

/// Bounds and characterization of `find_char_from`.
pub proof fn lemma_find_char_from(s: Seq<char>, i: int, c: char)
    requires
        0 <= i <= s.len(),
    ensures
        i <= find_char_from(s, i, c) <= s.len(),
        find_char_from(s, i, c) < s.len() ==> s[find_char_from(s, i, c)] == c,
        forall|k: int| i <= k < find_char_from(s, i, c) ==> s[k] != c,
    decreases s.len() - i,
{
    if i < s.len() && s[i] != c {
        lemma_find_char_from(s, i + 1, c);
    }
}

/// Finds the first occurrence of `c` within `[start, end)` of `chars`,
/// returning `end` when there is none.
pub fn find_char_in_range(chars: &Vec<char>, start: usize, end: usize, c: char) -> (result: usize)
    requires
        start <= end <= chars@.len(),
    ensures
        start <= result <= end,
        result == find_char_from(chars@.subrange(start as int, end as int), 0, c) + start,
{
    let ghost sub = chars@.subrange(start as int, end as int);
    let mut i = start;
    while i < end
        invariant
            start <= i <= end <= chars@.len(),
            sub == chars@.subrange(start as int, end as int),
            find_char_from(sub, 0, c) == find_char_from(sub, i as int - start as int, c),
            forall|k: int| start <= k < i ==> chars@[k] != c,
        decreases end - i,
    {
        if chars[i] == c {
            proof {
                assert(sub[i as int - start as int] == chars@[i as int]);
            }
            return i;
        }
        proof {
            assert(sub[i as int - start as int] == chars@[i as int]);
        }
        i = i + 1;
    }
    proof {
        assert(find_char_from(sub, i as int - start as int, c) == sub.len());
    }
    end
}

/// The index right after the run of whitespace starting at `i`, or `s.len()`
/// when only whitespace remains.
pub open spec fn skip_spaces(s: Seq<char>, i: int) -> int
    decreases s.len() - i,
{
    if i < 0 || i >= s.len() {
        s.len() as int
    } else if is_space(s[i]) {
        skip_spaces(s, i + 1)
    } else {
        i
    }
}

/// The index right after the run of non-whitespace starting at `i`, or
/// `s.len()` when the run reaches the end.
pub open spec fn token_end(s: Seq<char>, i: int) -> int
    decreases s.len() - i,
{
    if i < 0 || i >= s.len() {
        s.len() as int
    } else if is_space(s[i]) {
        i
    } else {
        token_end(s, i + 1)
    }
}

/// Bounds of `skip_spaces`.
pub proof fn lemma_skip_spaces(s: Seq<char>, i: int)
    requires
        0 <= i <= s.len(),
    ensures
        i <= skip_spaces(s, i) <= s.len(),
        skip_spaces(s, i) < s.len() ==> !is_space(s[skip_spaces(s, i)]),
    decreases s.len() - i,
{
    if i < s.len() && is_space(s[i]) {
        lemma_skip_spaces(s, i + 1);
    }
}

/// Bounds of `token_end`, and strict progress on a non-space start.
pub proof fn lemma_token_end(s: Seq<char>, i: int)
    requires
        0 <= i <= s.len(),
    ensures
        i <= token_end(s, i) <= s.len(),
        i < s.len() && !is_space(s[i]) ==> token_end(s, i) > i,
    decreases s.len() - i,
{
    if i < s.len() && !is_space(s[i]) {
        lemma_token_end(s, i + 1);
    }
}

/// The whitespace-separated tokens of `s` from index `i` on, in order.
pub open spec fn fields_from(s: Seq<char>, i: int) -> Seq<Seq<char>>
    decreases s.len() - i,
        when 0 <= i <= s.len()
    via fields_from_decreases
{
    let j = skip_spaces(s, i);
    if j >= s.len() {
        Seq::empty()
    } else {
        seq![s.subrange(j, token_end(s, j))] + fields_from(s, token_end(s, j))
    }
}

#[via_fn]
proof fn fields_from_decreases(s: Seq<char>, i: int) {
    lemma_skip_spaces(s, i);
    lemma_token_end(s, skip_spaces(s, i));
}

/// The whitespace-separated tokens of `s`, in order.
pub open spec fn spec_fields(s: Seq<char>) -> Seq<Seq<char>> {
    fields_from(s, 0)
}

/// Splits `chars` into its whitespace-separated tokens.
pub fn split_fields(chars: &Vec<char>) -> (result: Vec<Vec<char>>)
    ensures
        result@.map_values(|v: Vec<char>| v@) == spec_fields(chars@),
{
    let n = chars.len();
    let mut result: Vec<Vec<char>> = Vec::new();
    let mut i: usize = 0;
    while i < n
        invariant
            i <= n,
            n == chars@.len(),
            result@.map_values(|v: Vec<char>| v@) + fields_from(chars@, i as int) == spec_fields(
                chars@,
            ),
        decreases n - i,
    {
        if char_is_space(chars[i]) {
            proof {
                assert(skip_spaces(chars@, i as int) == skip_spaces(chars@, i as int + 1));
                assert(fields_from(chars@, i as int) == fields_from(chars@, i as int + 1));
            }
            i = i + 1;
        } else {
            let mut k = i;
            while k < n && !char_is_space(chars[k])
                invariant
                    i <= k <= n,
                    n == chars@.len(),
                    token_end(chars@, i as int) == token_end(chars@, k as int),
                decreases n - k,
            {
                k = k + 1;
            }
            proof {
                assert(token_end(chars@, k as int) == k as int);
                assert(skip_spaces(chars@, i as int) == i as int);
                assert(fields_from(chars@, i as int) == seq![
                    chars@.subrange(i as int, k as int),
                ] + fields_from(chars@, k as int));
            }
            let token = subrange_vec(chars, i, k);
            let ghost old_views = result@.map_values(|v: Vec<char>| v@);
            result.push(token);
            proof {
                assert(result@.map_values(|v: Vec<char>| v@) =~= old_views.push(
                    chars@.subrange(i as int, k as int),
                ));
                assert(old_views.push(chars@.subrange(i as int, k as int)) + fields_from(
                    chars@,
                    k as int,
                ) =~= old_views + fields_from(chars@, i as int));
            }
            i = k;
        }
    }
    proof {
        assert(fields_from(chars@, n as int) =~= Seq::<Seq<char>>::empty());
        assert(result@.map_values(|v: Vec<char>| v@) + fields_from(chars@, n as int)
            =~= result@.map_values(|v: Vec<char>| v@));
    }
    result
}

/// Whether `[start, end)` of `chars` spells exactly the characters of
/// `other`.
pub fn range_equals(chars: &Vec<char>, start: usize, end: usize, other: &Vec<char>) -> (result:
    bool)
    requires
        start <= end <= chars@.len(),
    ensures
        result == (chars@.subrange(start as int, end as int) == other@),
{
    let ghost sub = chars@.subrange(start as int, end as int);
    if end - start != other.len() {
        proof {
            assert(sub.len() != other@.len());
        }
        return false;
    }
    let mut i: usize = 0;
    while i < other.len()
        invariant
            start <= end <= chars@.len(),
            end - start == other@.len(),
            i <= other@.len(),
            sub == chars@.subrange(start as int, end as int),
            forall|k: int| 0 <= k < i ==> sub[k] == other@[k],
        decreases other@.len() - i,
    {
        if chars[start + i] != other[i] {
            proof {
                assert(sub[i as int] == chars@[start as int + i as int]);
            }
            return false;
        }
        proof {
            assert(sub[i as int] == chars@[start as int + i as int]);
        }
        i = i + 1;
    }
    proof {
        assert(sub =~= other@);
    }
    true
}

/// The decimal digit character for a value below ten.
pub open spec fn dec_digit_char(d: int) -> char {
    if d == 0 {
        '0'
    } else if d == 1 {
        '1'
    } else if d == 2 {
        '2'
    } else if d == 3 {
        '3'
    } else if d == 4 {
        '4'
    } else if d == 5 {
        '5'
    } else if d == 6 {
        '6'
    } else if d == 7 {
        '7'
    } else if d == 8 {
        '8'
    } else {
        '9'
    }
}

/// The decimal digit string of a non-negative number, most significant digit
/// first and without leading zeros (a lone zero for zero itself).
pub open spec fn spec_u64_string(n: int) -> Seq<char>
    decreases n,
        when n >= 0
    via spec_u64_string_decreases
{
    if n < 10 {
        seq![dec_digit_char(n)]
    } else {
        spec_u64_string(n / 10) + seq![dec_digit_char(n % 10)]
    }
}

#[via_fn]
proof fn spec_u64_string_decreases(n: int) {
    if n >= 10 {
        assert(n / 10 < n) by (nonlinear_arith)
            requires
                n >= 10,
        {}
    }
}

/// A one-character string slice for a decimal digit value.
pub(crate) fn digit_str(d: u64) -> (result: &'static str)
    requires
        d < 10,
    ensures
        result@ == seq![dec_digit_char(d as int)],
{
    if d == 0 {
        proof {
            reveal_strlit("0");
            assert("0"@ =~= seq![dec_digit_char(0)]);
        }
        "0"
    } else if d == 1 {
        proof {
            reveal_strlit("1");
            assert("1"@ =~= seq![dec_digit_char(1)]);
        }
        "1"
    } else if d == 2 {
        proof {
            reveal_strlit("2");
            assert("2"@ =~= seq![dec_digit_char(2)]);
        }
        "2"
    } else if d == 3 {
        proof {
            reveal_strlit("3");
            assert("3"@ =~= seq![dec_digit_char(3)]);
        }
        "3"
    } else if d == 4 {
        proof {
            reveal_strlit("4");
            assert("4"@ =~= seq![dec_digit_char(4)]);
        }
        "4"
    } else if d == 5 {
        proof {
            reveal_strlit("5");
            assert("5"@ =~= seq![dec_digit_char(5)]);
        }
        "5"
    } else if d == 6 {
        proof {
            reveal_strlit("6");
            assert("6"@ =~= seq![dec_digit_char(6)]);
        }
        "6"
    } else if d == 7 {
        proof {
            reveal_strlit("7");
            assert("7"@ =~= seq![dec_digit_char(7)]);
        }
        "7"
    } else if d == 8 {
        proof {
            reveal_strlit("8");
            assert("8"@ =~= seq![dec_digit_char(8)]);
        }
        "8"
    } else {
        proof {
            reveal_strlit("9");
            assert("9"@ =~= seq![dec_digit_char(9)]);
        }
        "9"
    }
}

/// The decimal digit string of a number.
pub fn u64_to_string(n: u64) -> (result: String)
    ensures
        result@ == spec_u64_string(n as int),
    decreases n,
{
    if n < 10 {
        String::from_str(digit_str(n))
    } else {
        let mut prefix = u64_to_string(n / 10);
        prefix.append(digit_str(n % 10));
        prefix
    }
}

} // verus!
