//! Verified reading and writing of decimal numbers.
//!
//! The configuration inputs arrive as text.  This module defines what a
//! decimal digit string means (`dec_value`), parses whole numbers and
//! fixed-point rates from byte strings, and renders numbers back to text.
//! A rate such as `"11.5"` is read as an integer count of thousandths
//! (`11500`), so no floating point is involved anywhere.

use vstd::prelude::*;
use vstd::string::StringSliceAdditionalSpecFns;
use vstd::string::StringExecFns;

verus! {

/// The ASCII code of the decimal point.
pub const DOT: u8 = 0x2e;

/// The byte string a text stands for; parsing is stated over it.
pub open spec fn bytes_of(s: Seq<char>) -> Seq<u8> {
    vstd::utf8::encode_utf8(s)
}

pub open spec fn is_ascii_digit(b: u8) -> bool {
    0x30 <= b <= 0x39
}

/// The numeric value of an ASCII digit byte.
pub open spec fn digit_val(b: u8) -> nat {
    (b - 0x30) as nat
}

pub open spec fn all_digits(s: Seq<u8>) -> bool {
    forall|j: int| 0 <= j < s.len() ==> is_ascii_digit(#[trigger] s[j])
}

/// The value of a digit string, most significant digit first.
pub open spec fn dec_value(s: Seq<u8>) -> nat
    decreases s.len(),
{
    if s.len() == 0 {
        0
    } else {
        dec_value(s.drop_last()) * 10 + digit_val(s.last())
    }
}

/// What parsing an unsigned decimal string yields: a value when the string
/// is nonempty, all digits, and within range; nothing otherwise.
pub open spec fn parse_u64_spec(s: Seq<u8>) -> Option<u64> {
    if s.len() > 0 && all_digits(s) && dec_value(s) <= u64::MAX {
        Some(dec_value(s) as u64)
    } else {
        None
    }
}

/// Reading one more digit multiplies the prefix value by ten.
proof fn lemma_dec_value_extend(s: Seq<u8>, i: int)
    requires
        0 <= i < s.len(),
    ensures
        dec_value(s.take(i + 1)) == dec_value(s.take(i)) * 10 + digit_val(s[i]),
{
    assert(s.take(i + 1).drop_last() =~= s.take(i));
    assert(s.take(i + 1).last() == s[i]);
}

/// A prefix of a digit string never exceeds the whole string's value.
proof fn lemma_dec_value_prefix_le(s: Seq<u8>, i: int)
    requires
        0 <= i <= s.len(),
    ensures
        dec_value(s.take(i)) <= dec_value(s),
    decreases s.len() - i,
{
    if i == s.len() {
        assert(s.take(i) =~= s);
    } else {
        lemma_dec_value_extend(s, i);
        lemma_dec_value_prefix_le(s, i + 1);
    }
}

/// Parses the bytes of `bs` between `from` and `to` as an unsigned decimal.
fn parse_dec_range(bs: &[u8], from: usize, to: usize) -> (r: Option<u64>)
    requires
        from <= to <= bs@.len(),
    ensures
        r == parse_u64_spec(bs@.subrange(from as int, to as int)),
{
    let ghost part = bs@.subrange(from as int, to as int);
    if from == to {
        assert(part.len() == 0);
        return None;
    }
    let mut i: usize = from;
    let mut acc: u64 = 0;
    while i < to
        invariant
            from <= i <= to <= bs@.len(),
            part == bs@.subrange(from as int, to as int),
            all_digits(part.take(i - from)),
            acc as nat == dec_value(part.take(i - from)),
        decreases to - i,
    {
        let b = bs[i];
        assert(b == part[i - from]);
        if !(0x30 <= b && b <= 0x39) {
            assert(!is_ascii_digit(part[i - from]));
            return None;
        }
        proof {
            lemma_dec_value_extend(part, i - from);
        }
        let grown = match acc.checked_mul(10) {
            Some(m) => m.checked_add((b - 0x30) as u64),
            None => None,
        };
        match grown {
            Some(v) => {
                acc = v;
            }
            None => {
                proof {
                    assert(dec_value(part.take(i - from + 1)) > u64::MAX);
                    if part.len() > 0 && all_digits(part) {
                        lemma_dec_value_prefix_le(part, i - from + 1);
                        assert(dec_value(part) > u64::MAX);
                    }
                }
                return None;
            }
        }
        i += 1;
    }
    assert(part.take(to - from) =~= part);
    Some(acc)
}

/// Parses a whole decimal string such as `"1000"`.
pub fn parse_u64(s: &str) -> (r: Option<u64>)
    ensures
        r == parse_u64_spec(s.spec_bytes()),
{
    let bs = s.as_bytes();
    let n = bs.len();
    let r = parse_dec_range(bs, 0, n);
    proof {
        assert(bs@.subrange(0, n as int) =~= s.spec_bytes());
    }
    r
}

/// The position of the first decimal point, or the length when there is none.
pub open spec fn first_dot(s: Seq<u8>) -> int
    decreases s.len(),
{
    if s.len() == 0 {
        0
    } else if s[0] == DOT {
        0
    } else {
        1 + first_dot(s.drop_first())
    }
}

/// A left-to-right scan that finds no decimal point before `i`, and one at
/// `i` or none at all, has found the first decimal point.
proof fn lemma_first_dot_from_scan(s: Seq<u8>, i: int)
    requires
        0 <= i <= s.len(),
        forall|j: int| 0 <= j < i ==> #[trigger] s[j] != DOT,
        i < s.len() ==> s[i] == DOT,
    ensures
        first_dot(s) == i,
    decreases i,
{
    if i == 0 {
        if s.len() > 0 && s[0] != DOT {
            assert(false);
        }
    } else {
        lemma_first_dot_from_scan(s.drop_first(), i - 1);
    }
}

/// The value, in thousandths, of the fractional digits of a rate: the
/// first three digits count; anything further is below resolution.
pub open spec fn frac_milli(f: Seq<u8>) -> nat {
    if f.len() >= 3 {
        dec_value(f.take(3))
    } else if f.len() == 2 {
        dec_value(f) * 10
    } else {
        dec_value(f) * 100
    }
}

/// Whether a rate string is well formed: digits, optionally followed by a
/// decimal point and at least one more digit.
pub open spec fn rate_string_ok(s: Seq<u8>) -> bool {
    let d = first_dot(s);
    if d == s.len() {
        s.len() > 0 && all_digits(s)
    } else {
        d > 0 && all_digits(s.take(d)) && d + 1 < s.len() && all_digits(s.skip(d + 1))
    }
}

/// The value of a rate string in thousandths.
pub open spec fn rate_milli_value(s: Seq<u8>) -> nat {
    let d = first_dot(s);
    if d == s.len() {
        dec_value(s) * 1000
    } else {
        dec_value(s.take(d)) * 1000 + frac_milli(s.skip(d + 1))
    }
}

/// What parsing a rate string to thousandths yields.
pub open spec fn parse_rate_milli_spec(s: Seq<u8>) -> Option<u64> {
    if rate_string_ok(s) && rate_milli_value(s) <= u64::MAX {
        Some(rate_milli_value(s) as u64)
    } else {
        None
    }
}

/// The value of at most three fractional digits, scaled to thousandths.
fn frac_part_milli(bs: &[u8], from: usize, to: usize) -> (r: Option<u64>)
    requires
        from < to <= bs@.len(),
    ensures
        (r matches Some(v) ==> all_digits(bs@.subrange(from as int, to as int)) && v
            == frac_milli(bs@.subrange(from as int, to as int)) && v < 1000),
        r is None ==> !all_digits(bs@.subrange(from as int, to as int)),
{
    let ghost f = bs@.subrange(from as int, to as int);
    // every fractional digit must be a digit, even those below resolution
    let mut i: usize = from;
    while i < to
        invariant
            from <= i <= to <= bs@.len(),
            f == bs@.subrange(from as int, to as int),
            forall|j: int| 0 <= j < i - from ==> is_ascii_digit(#[trigger] f[j]),
        decreases to - i,
    {
        let b = bs[i];
        if !(0x30 <= b && b <= 0x39) {
            assert(!is_ascii_digit(f[i - from]));
            return None;
        }
        i += 1;
    }
    assert(all_digits(f));
    let len = to - from;
    assert(is_ascii_digit(f[0]) && f[0] == bs@[from as int]);
    assert(1 < f.len() ==> is_ascii_digit(f[1]) && f[1] == bs@[from + 1]);
    assert(2 < f.len() ==> is_ascii_digit(f[2]) && f[2] == bs@[from + 2]);
    let d0 = (bs[from] - 0x30) as u64;
    proof {
        assert(dec_value(f.take(1)) == digit_val(f[0])) by {
            lemma_dec_value_extend(f, 0);
            assert(dec_value(f.take(0)) == 0) by {
                assert(f.take(0) =~= Seq::<u8>::empty());
            }
        }
    }
    if len == 1 {
        assert(f.take(1) =~= f);
        Some(100 * d0)
    } else {
        let d1 = (bs[from + 1] - 0x30) as u64;
        proof {
            lemma_dec_value_extend(f, 1);
        }
        if len == 2 {
            assert(f.take(2) =~= f);
            Some(100 * d0 + 10 * d1)
        } else {
            let d2 = (bs[from + 2] - 0x30) as u64;
            proof {
                lemma_dec_value_extend(f, 2);
            }
            Some(100 * d0 + 10 * d1 + d2)
        }
    }
}

/// Parses a rate string such as `"11"` or `"11.5"` to thousandths
/// (`11000`, `11500`).
pub fn parse_rate_milli(s: &str) -> (r: Option<u64>)
    ensures
        r == parse_rate_milli_spec(s.spec_bytes()),
{
    let bs = s.as_bytes();
    let n = bs.len();
    // find the first decimal point
    let mut d: usize = 0;
    while d < n && bs[d] != DOT
        invariant
            0 <= d <= n == bs@.len(),
            forall|j: int| 0 <= j < d ==> #[trigger] bs@[j] != DOT,
        decreases n - d,
    {
        d += 1;
    }
    proof {
        lemma_first_dot_from_scan(bs@, d as int);
    }
    let int_part = parse_dec_range(bs, 0, d);
    let ghost ip = bs@.subrange(0, d as int);
    if d == n {
        // no decimal point: a whole number of clicks per second
        match int_part {
            Some(v) => {
                proof {
                    assert(ip =~= bs@);
                }
                match v.checked_mul(1000) {
                    Some(m) => Some(m),
                    None => {
                        assert(rate_milli_value(bs@) > u64::MAX);
                        None
                    }
                }
            }
            None => {
                proof {
                    assert(ip =~= bs@);
                    if rate_string_ok(bs@) {
                        assert(dec_value(bs@) > u64::MAX);
                    }
                }
                None
            }
        }
    } else {
        // digits, a decimal point, then fractional digits
        if d + 1 == n {
            // nothing after the decimal point
            return None;
        }
        let frac = frac_part_milli(bs, d + 1, n);
        let ghost fp = bs@.subrange(d + 1, n as int);
        proof {
            assert(fp =~= bs@.skip(d + 1));
            assert(ip =~= bs@.take(d as int));
        }
        match (int_part, frac) {
            (Some(v), Some(fm)) => {
                let scaled = match v.checked_mul(1000) {
                    Some(m) => m.checked_add(fm),
                    None => None,
                };
                match scaled {
                    Some(m) => Some(m),
                    None => {
                        assert(rate_milli_value(bs@) > u64::MAX);
                        None
                    }
                }
            }
            (_, None) => {
                assert(!rate_string_ok(bs@));
                None
            }
            (None, _) => {
                proof {
                    if rate_string_ok(bs@) {
                        assert(dec_value(ip) > u64::MAX);
                        assert(rate_milli_value(bs@) > u64::MAX);
                    }
                }
                None
            }
        }
    }
}

/// The character that writes a single digit.
pub open spec fn char_of_digit(d: nat) -> char {
    if d == 0 {
        '0'
    } else if d == 1 {
        '1'
    } else if d == 2 {
        '2'
    } else if d == 3 {
        '3'
    } else if d == 4 {
        '4'
    } else if d == 5 {
        '5'
    } else if d == 6 {
        '6'
    } else if d == 7 {
        '7'
    } else if d == 8 {
        '8'
    } else {
        '9'
    }
}

/// The decimal text of a number, most significant digit first.
pub open spec fn dec_chars(n: nat) -> Seq<char>
    decreases n,
{
    if n < 10 {
        seq![char_of_digit(n)]
    } else {
        dec_chars(n / 10).push(char_of_digit(n % 10))
    }
}

/// The text of a single digit.
pub fn digit_str(d: u64) -> (r: &'static str)
    requires
        d < 10,
    ensures
        r@ == seq![char_of_digit(d as nat)],
{
    proof {
        reveal_strlit("0");
        reveal_strlit("1");
        reveal_strlit("2");
        reveal_strlit("3");
        reveal_strlit("4");
        reveal_strlit("5");
        reveal_strlit("6");
        reveal_strlit("7");
        reveal_strlit("8");
        reveal_strlit("9");
    }
    let r = if d == 0 {
        "0"
    } else if d == 1 {
        "1"
    } else if d == 2 {
        "2"
    } else if d == 3 {
        "3"
    } else if d == 4 {
        "4"
    } else if d == 5 {
        "5"
    } else if d == 6 {
        "6"
    } else if d == 7 {
        "7"
    } else if d == 8 {
        "8"
    } else {
        "9"
    };
    proof {
        assert(r@ =~= seq![char_of_digit(d as nat)]);
    }
    r
}

/// Writes a number as decimal text.
pub fn u64_to_string(n: u64) -> (s: String)
    ensures
        s@ == dec_chars(n as nat),
    decreases n,
{
    if n < 10 {
        digit_str(n).to_owned()
    } else {
        let mut s = u64_to_string(n / 10);
        s.append(digit_str(n % 10));
        proof {
            assert(s@ =~= dec_chars(n as nat));
        }
        s
    }
}

} // verus!
