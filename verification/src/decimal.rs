//! Decimal text of integers: printing (as `to_string` does) and parsing (as
//! `str::parse::<i32>` / `str::parse::<u8>` do).
use vstd::prelude::*;
use crate::text::{chars_of, string_of};

verus! {

/// `c` is one of the ASCII digits `0`..`9`.
pub open spec fn is_digit(c: char) -> bool {
    48 <= (c as u32) && (c as u32) <= 57
}

/// Every character of `s` is an ASCII digit.
pub open spec fn all_digits(s: Seq<char>) -> bool {
    forall|i: int| 0 <= i < s.len() ==> #[trigger] is_digit(s[i])
}

/// The ASCII digit for `d` (for `0 <= d < 10`).
pub open spec fn digit_char(d: int) -> char {
    (d + 48) as char
}

/// Value of a run of ASCII digits, read most significant first.
pub open spec fn digits_value(s: Seq<char>) -> nat
    decreases s.len(),
{
    if s.len() == 0 {
        0
    } else {
        digits_value(s.drop_last()) * 10 + ((s.last() as u32) - 48) as nat
    }
}

/// Decimal text of a natural number, without leading zeros.
pub open spec fn nat_text(n: nat) -> Seq<char>
    decreases n,
{
    if n < 10 {
        seq![digit_char(n as int)]
    } else {
        nat_text(n / 10).push(digit_char((n % 10) as int))
    }
}

/// Decimal text of an integer, with a leading `-` when it is negative.
pub open spec fn int_text(n: int) -> Seq<char> {
    if n < 0 {
        seq!['-'] + nat_text((-n) as nat)
    } else {
        nat_text(n as nat)
    }
}

/// Value of an optionally signed run of decimal digits: an optional `+` or
/// `-`, then at least one digit and nothing else.
pub open spec fn signed_value(s: Seq<char>) -> Option<int> {
    if s.len() > 0 && (s[0] == '+' || s[0] == '-') {
        let rest = s.drop_first();
        if rest.len() > 0 && all_digits(rest) {
            if s[0] == '-' {
                Some(-(digits_value(rest) as int))
            } else {
                Some(digits_value(rest) as int)
            }
        } else {
            None
        }
    } else if s.len() > 0 && all_digits(s) {
        Some(digits_value(s) as int)
    } else {
        None
    }
}

/// What `str::parse::<i32>` gives for the text `s`.
pub open spec fn parse_i32_spec(s: Seq<char>) -> Option<i32> {
    match signed_value(s) {
        Some(v) => if i32::MIN <= v && v <= i32::MAX {
            Some(v as i32)
        } else {
            None
        },
        None => None,
    }
}

/// What `str::parse::<u8>` gives for the text `s` (a `-` sign is not a digit
/// for an unsigned type).
pub open spec fn parse_u8_spec(s: Seq<char>) -> Option<u8> {
    if s.len() > 0 && s[0] == '-' {
        None
    } else {
        match signed_value(s) {
            Some(v) => if 0 <= v && v <= 255 {
                Some(v as u8)
            } else {
                None
            },
            None => None,
        }
    }
}

/// A longer run of digits never has a smaller value than its prefix.
pub proof fn lemma_digits_value_prefix(s: Seq<char>, k: int)
    requires
        all_digits(s),
        0 <= k <= s.len(),
    ensures
        digits_value(s.take(k)) <= digits_value(s),
    decreases s.len(),
{
    if k < s.len() {
        let d = s.drop_last();
        assert(all_digits(d)) by {
            assert forall|i: int| 0 <= i < d.len() implies #[trigger] is_digit(d[i]) by {
                assert(is_digit(s[i]));
            }
        }
        lemma_digits_value_prefix(d, k);
        assert(d.take(k) == s.take(k));
    } else {
        assert(s.take(k) == s);
    }
}

/// The decimal text of a natural number is a non-empty run of digits.
pub proof fn lemma_nat_text_digits(n: nat)
    ensures
        nat_text(n).len() > 0,
        all_digits(nat_text(n)),
        digits_value(nat_text(n)) == n,
    decreases n,
{
    if n < 10 {
        let t = nat_text(n);
        assert(t.drop_last() == Seq::<char>::empty());
        assert((digit_char(n as int) as u32) == n + 48);
        assert(digits_value(t.drop_last()) == 0);
        assert(t.last() == digit_char(n as int));
        assert(is_digit(t[0]));
    } else {
        lemma_nat_text_digits(n / 10);
        let t = nat_text(n);
        let p = nat_text(n / 10);
        assert(t.drop_last() == p);
        assert((digit_char((n % 10) as int) as u32) == n % 10 + 48);
        assert(t.last() == digit_char((n % 10) as int));
        assert(digits_value(t) == digits_value(p) * 10 + n % 10);
        assert forall|i: int| 0 <= i < t.len() implies #[trigger] is_digit(t[i]) by {
            if i < p.len() {
                assert(t[i] == p[i]);
            }
        }
    }
}

/// Law: the decimal text of a number has no leading zero: only zero itself
/// is written starting with `0`, and it is written as `0` alone. With
/// `lemma_nat_text_digits` this fixes the text of every number.
pub proof fn lemma_nat_text_no_leading_zero(n: nat)
    ensures
        n > 0 ==> nat_text(n)[0] != '0',
        n == 0 ==> nat_text(n) == seq!['0'],
        n < 10 ==> nat_text(n).len() == 1,
        n >= 10 ==> nat_text(n).len() >= 2,
    decreases n,
{
    if n >= 10 {
        lemma_nat_text_no_leading_zero(n / 10);
        lemma_nat_text_digits(n / 10);
        assert(nat_text(n)[0] == nat_text(n / 10)[0]);
    } else {
        assert((digit_char(n as int) as u32) == n + 48);
    }
}

/// Law: the decimal text of an integer is `-` and the text of its size when
/// it is negative, and starts with a digit other than `0` unless it is zero.
pub proof fn lemma_int_text_canonical(n: int)
    ensures
        n > 0 ==> int_text(n)[0] != '0' && is_digit(int_text(n)[0]),
        n < 0 ==> int_text(n)[0] == '-' && int_text(n)[1] != '0',
        n == 0 ==> int_text(n) == seq!['0'],
{
    if n < 0 {
        lemma_nat_text_no_leading_zero((-n) as nat);
        lemma_nat_text_digits((-n) as nat);
        assert(int_text(n)[1] == nat_text((-n) as nat)[0]);
    } else {
        lemma_nat_text_no_leading_zero(n as nat);
        lemma_nat_text_digits(n as nat);
    }
}

/// Reading back the decimal text of an `i32` gives the same number.
pub proof fn lemma_parse_int_text(n: i32)
    ensures
        parse_i32_spec(int_text(n as int)) == Some(n),
{
    if n < 0 {
        let m: nat = (-(n as int)) as nat;
        lemma_nat_text_digits(m);
        let t = int_text(n as int);
        assert(t.drop_first() == nat_text(m));
    } else {
        lemma_nat_text_digits(n as nat);
        let t = nat_text(n as nat);
        assert(is_digit(t[0]));
    }
}

/// The ASCII digit for `d`.
fn digit_of(d: u64) -> (c: char)
    requires
        d < 10,
    ensures
        c == digit_char(d as int),
{
    match d {
        0 => '0',
        1 => '1',
        2 => '2',
        3 => '3',
        4 => '4',
        5 => '5',
        6 => '6',
        7 => '7',
        8 => '8',
        _ => '9',
    }
}

/// Appends the decimal text of `n` to `out`.
pub fn push_nat_text(out: &mut Vec<char>, n: u64)
    ensures
        final(out)@ == old(out)@ + nat_text(n as nat),
    decreases n,
{
    if n >= 10 {
        push_nat_text(out, n / 10);
    }
    out.push(digit_of(n % 10));
    proof {
        if n < 10 {
            assert(nat_text(n as nat) == seq![digit_char(n as int)]);
        }
    }
}

/// The decimal text of an unsigned number (as `usize::to_string` prints it).
pub fn usize_to_string(n: usize) -> (s: String)
    ensures
        s@ == nat_text(n as nat),
{
    let mut v: Vec<char> = Vec::new();
    push_nat_text(&mut v, n as u64);
    assert(v@ == nat_text(n as nat));
    string_of(&v)
}

/// The decimal text of an `i32` (as `i32::to_string` prints it).
pub fn i32_to_chars(n: i32) -> (v: Vec<char>)
    ensures
        v@ == int_text(n as int),
{
    let mut v: Vec<char> = Vec::new();
    if n < 0 {
        v.push('-');
        let m: i64 = -(n as i64);
        push_nat_text(&mut v, m as u64);
    } else {
        push_nat_text(&mut v, n as u64);
        assert(v@ == nat_text(n as nat));
    }
    v
}

/// The decimal text of an `i32` (as `i32::to_string` prints it).
pub fn i32_to_string(n: i32) -> (s: String)
    ensures
        s@ == int_text(n as int),
{
    let v = i32_to_chars(n);
    string_of(&v)
}

/// Reads the digits of `s` from position `start` on, giving up as soon as
/// their value passes `bound`.
fn digits_upto(s: &Vec<char>, start: usize, bound: u64) -> (r: Option<u64>)
    requires
        start <= s.len(),
        bound <= 0xffff_ffff,
    ensures
        match r {
            Some(v) => all_digits(s@.skip(start as int)) && v == digits_value(
                s@.skip(start as int),
            ) && v <= bound,
            None => !all_digits(s@.skip(start as int)) || digits_value(s@.skip(start as int))
                > bound,
        },
{
    let ghost rest = s@.skip(start as int);
    let mut acc: u64 = 0;
    let mut i: usize = start;
    while i < s.len()
        invariant
            start <= i <= s.len(),
            rest == s@.skip(start as int),
            all_digits(rest.take(i - start)),
            acc == digits_value(rest.take(i - start)),
            acc <= bound,
            bound <= 0xffff_ffff,
        decreases s.len() - i,
    {
        let c: char = s[i];
        let ghost k = i - start;
        if !((c as u32) >= 48 && (c as u32) <= 57) {
            assert(rest[k] == c);
            assert(!is_digit(rest[k]));
            return None;
        }
        let d: u64 = (c as u32 - 48) as u64;
        let ghost pre = rest.take(k);
        assert(rest.take(k + 1).drop_last() == pre);
        assert(rest.take(k + 1).last() == c);
        assert(all_digits(rest.take(k + 1))) by {
            assert forall|j: int| 0 <= j < k + 1 implies #[trigger] is_digit(
                rest.take(k + 1)[j],
            ) by {
                if j < k {
                    assert(rest.take(k + 1)[j] == pre[j]);
                }
            }
        }
        acc = acc * 10 + d;
        i = i + 1;
        if acc > bound {
            proof {
                if all_digits(rest) {
                    lemma_digits_value_prefix(rest, k + 1);
                }
            }
            return None;
        }
    }
    assert(rest.take(i - start) == rest);
    Some(acc)
}

/// Parses `s` as `str::parse::<i32>` does: an optional sign, then decimal
/// digits only, within the range of `i32`.
pub fn parse_i32(s: &Vec<char>) -> (r: Option<i32>)
    ensures
        r == parse_i32_spec(s@),
{
    if s.len() == 0 {
        return None;
    }
    if s[0] == '+' || s[0] == '-' {
        if s.len() == 1 {
            return None;
        }
        let negative = s[0] == '-';
        assert(s@.skip(1) == s@.drop_first());
        let bound: u64 = if negative {
            2147483648
        } else {
            2147483647
        };
        match digits_upto(s, 1, bound) {
            Some(v) => {
                if negative {
                    let m: i64 = -(v as i64);
                    Some(m as i32)
                } else {
                    Some(v as i32)
                }
            },
            None => None,
        }
    } else {
        assert(s@.skip(0) == s@);
        match digits_upto(s, 0, 2147483647) {
            Some(v) => Some(v as i32),
            None => None,
        }
    }
}

/// Parses `s` as `str::parse::<u8>` does.
pub fn parse_u8(s: &Vec<char>) -> (r: Option<u8>)
    ensures
        r == parse_u8_spec(s@),
{
    if s.len() == 0 {
        return None;
    }
    if s[0] == '-' {
        return None;
    }
    if s[0] == '+' {
        if s.len() == 1 {
            return None;
        }
        assert(s@.skip(1) == s@.drop_first());
        match digits_upto(s, 1, 255) {
            Some(v) => Some(v as u8),
            None => None,
        }
    } else {
        assert(s@.skip(0) == s@);
        match digits_upto(s, 0, 255) {
            Some(v) => Some(v as u8),
            None => None,
        }
    }
}

/// Parses the text `s` as an `i32` (`str::parse::<i32>`).
pub fn parse_i32_text(s: &str) -> (r: Option<i32>)
    ensures
        r == parse_i32_spec(s@),
{
    let v = chars_of(s);
    parse_i32(&v)
}

/// Parses the text `s` as a `u8` (`str::parse::<u8>`).
pub fn parse_u8_text(s: &str) -> (r: Option<u8>)
    ensures
        r == parse_u8_spec(s@),
{
    let v = chars_of(s);
    parse_u8(&v)
}

} // verus!
