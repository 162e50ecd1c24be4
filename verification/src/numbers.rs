//! Decimal numerals: writing integers out, and reading them back the way
//! std's `str::parse` does for integer types.

use vstd::prelude::*;
use crate::text::{chars_of, push_char};

verus! {

/// The ASCII digit for `d`.
pub open spec fn digit_char(d: int) -> char {
    (48 + d) as char
}

/// Whether `c` is an ASCII digit.
pub open spec fn is_digit(c: char) -> bool {
    '0' <= c <= '9'
}

/// The value of an ASCII digit.
pub open spec fn digit_value(c: char) -> int {
    (c as u32) - 48
}

/// The decimal numeral of `n`, without leading zeros (`"0"` for zero).
pub open spec fn decimal(n: nat) -> Seq<char>
    decreases n,
{
    if n < 10 {
        seq![digit_char(n as int)]
    } else {
        decimal(n / 10).push(digit_char((n % 10) as int))
    }
}

/// The decimal numeral of `n`, with a leading `-` when negative.
pub open spec fn signed_decimal(n: int) -> Seq<char> {
    if n < 0 {
        seq!['-'] + decimal((-n) as nat)
    } else {
        decimal(n as nat)
    }
}

fn digit(d: u64) -> (c: char)
    requires
        d < 10,
    ensures
        c == digit_char(d as int),
        is_digit(c),
{
    let b = (48 + d) as u8;
    b as char
}

/// Appends the decimal numeral of `n`.
pub fn push_decimal(out: &mut String, n: u64)
    ensures
        final(out)@ == old(out)@ + decimal(n as nat),
    decreases n,
{
    if n >= 10 {
        push_decimal(out, n / 10);
    }
    let c = digit(n % 10);
    push_char(out, c);
    proof {
        if n >= 10 {
            assert(decimal(n as nat) == decimal((n / 10) as nat).push(c));
        }
        assert(final(out)@ =~= old(out)@ + decimal(n as nat));
    }
}

/// Appends the decimal numeral of `n`, signed.
pub fn push_signed_decimal(out: &mut String, n: i64)
    ensures
        final(out)@ == old(out)@ + signed_decimal(n as int),
{
    if n < 0 {
        push_char(out, '-');
        let m: u64 = if n == i64::MIN {
            0x8000_0000_0000_0000u64
        } else {
            (-n) as u64
        };
        push_decimal(out, m);
        assert(final(out)@ =~= old(out)@ + signed_decimal(n as int));
    } else {
        push_decimal(out, n as u64);
    }
}

// ---------------------------------------------------------------------------
// Reading numerals
// ---------------------------------------------------------------------------

/// Whether `s` is a non-empty run of ASCII digits.
pub open spec fn all_digits(s: Seq<char>) -> bool {
    s.len() > 0 && forall|i: int| 0 <= i < s.len() ==> is_digit(#[trigger] s[i])
}

/// The value of a run of ASCII digits, most significant first.
pub open spec fn digits_value(s: Seq<char>) -> nat
    decreases s.len(),
{
    if s.len() == 0 {
        0
    } else {
        (digits_value(s.drop_last()) * 10 + digit_value(s.last())) as nat
    }
}

/// The integer that `s` writes in std's integer syntax: an optional `+` or
/// `-`, then at least one ASCII digit; `None` when `s` is not of that form.
pub open spec fn numeral_value(s: Seq<char>) -> Option<int> {
    if s.len() > 0 && s[0] == '-' {
        if all_digits(s.drop_first()) {
            Some(-(digits_value(s.drop_first()) as int))
        } else {
            None
        }
    } else if s.len() > 0 && s[0] == '+' {
        if all_digits(s.drop_first()) {
            Some(digits_value(s.drop_first()) as int)
        } else {
            None
        }
    } else if all_digits(s) {
        Some(digits_value(s) as int)
    } else {
        None
    }
}

/// What `s.parse()` gives for an unsigned integer type whose largest value is
/// `max`: no `-` sign is accepted, and values above `max` are rejected.
pub open spec fn parsed_unsigned(s: Seq<char>, max: int) -> Option<int> {
    if s.len() > 0 && s[0] == '-' {
        None
    } else {
        match numeral_value(s) {
            Some(v) => if v <= max {
                Some(v)
            } else {
                None
            },
            None => None,
        }
    }
}

/// What `s.parse()` gives for a signed integer type with range `min..=max`.
pub open spec fn parsed_signed(s: Seq<char>, min: int, max: int) -> Option<int> {
    match numeral_value(s) {
        Some(v) => if min <= v <= max {
            Some(v)
        } else {
            None
        },
        None => None,
    }
}

proof fn lemma_digits_value_grows(s: Seq<char>, i: int)
    requires
        0 <= i <= s.len(),
        forall|k: int| 0 <= k < s.len() ==> is_digit(#[trigger] s[k]),
    ensures
        digits_value(s.take(i)) <= digits_value(s),
    decreases s.len() - i,
{
    if i < s.len() {
        lemma_digits_value_grows(s, i + 1);
        assert(s.take(i + 1).drop_last() =~= s.take(i));
    } else {
        assert(s.take(i) =~= s);
    }
}

/// The value of the digit run `x[start..]`, when it is a non-empty run of
/// digits whose value is at most `cap`.
fn digits_at_most(x: &Vec<char>, start: usize, cap: u128) -> (r: Option<u128>)
    requires
        start <= x@.len(),
    ensures
        ({
            let d = x@.subrange(start as int, x@.len() as int);
            r == if all_digits(d) && digits_value(d) <= cap {
                Some(digits_value(d) as u128)
            } else {
                None
            }
        }),
{
    let ghost d = x@.subrange(start as int, x@.len() as int);
    if start == x.len() {
        return None;
    }
    let mut acc: u128 = 0;
    let mut i = start;
    while i < x.len()
        invariant
            start < x@.len(),
            d == x@.subrange(start as int, x@.len() as int),
            start <= i <= x@.len(),
            forall|k: int| start <= k < i ==> is_digit(#[trigger] x@[k]),
            acc == digits_value(x@.subrange(start as int, i as int)),
            acc <= cap,
        decreases x@.len() - i,
    {
        let c = x[i];
        assert(x@.subrange(start as int, i + 1).drop_last() =~= x@.subrange(start as int, i as int));
        if !('0' <= c && c <= '9') {
            assert(!is_digit(d[i - start]));
            return None;
        }
        let dv = (c as u32 - 48) as u128;
        let next = match acc.checked_mul(10) {
            Some(m) => m.checked_add(dv),
            None => None,
        };
        match next {
            Some(v) if v <= cap => {
                acc = v;
            },
            _ => {
                proof {
                    assert(forall|k: int| 0 <= k < d.len() ==> is_digit(#[trigger] d[k]) ==> true);
                    if all_digits(d) {
                        assert(d.take(i + 1 - start) =~= x@.subrange(start as int, i + 1));
                        lemma_digits_value_grows(d, i + 1 - start);
                    }
                }
                return None;
            },
        }
        i = i + 1;
    }
    assert(x@.subrange(start as int, i as int) =~= d);
    Some(acc)
}

/// `s.parse::<u128>()`, as an `Option`.
pub fn parse_u128(s: &str) -> (r: Option<u128>)
    ensures
        r == match parsed_unsigned(s@, u128::MAX as int) {
            Some(v) => Some(v as u128),
            None => None::<u128>,
        },
{
    let x = chars_of(s);
    if x.len() > 0 && x[0] == '-' {
        return None;
    }
    let start: usize = if x.len() > 0 && x[0] == '+' { 1 } else { 0 };
    assert(start == 1 ==> x@.subrange(1, x@.len() as int) =~= s@.drop_first());
    assert(start == 0 ==> x@.subrange(0, x@.len() as int) =~= s@);
    digits_at_most(&x, start, u128::MAX)
}

/// `s.parse()` for a signed integer type with range `min..=max`, widened.
fn parse_signed(s: &str, min: i128, max: i128) -> (r: Option<i128>)
    requires
        -0x8000_0000_0000_0000 <= min <= 0 <= max <= 0x7fff_ffff_ffff_ffff,
    ensures
        r == match parsed_signed(s@, min as int, max as int) {
            Some(v) => Some(v as i128),
            None => None::<i128>,
        },
{
    let x = chars_of(s);
    let negative = x.len() > 0 && x[0] == '-';
    let start: usize = if x.len() > 0 && (x[0] == '-' || x[0] == '+') { 1 } else { 0 };
    assert(start == 1 ==> x@.subrange(1, x@.len() as int) =~= s@.drop_first());
    assert(start == 0 ==> x@.subrange(0, x@.len() as int) =~= s@);
    let cap: u128 = if negative { (-min) as u128 } else { max as u128 };
    match digits_at_most(&x, start, cap) {
        Some(m) => {
            if negative {
                Some(-(m as i128))
            } else {
                Some(m as i128)
            }
        },
        None => None,
    }
}

/// `s.parse::<i64>()`, as an `Option`.
pub fn parse_i64(s: &str) -> (r: Option<i64>)
    ensures
        r == match parsed_signed(s@, i64::MIN as int, i64::MAX as int) {
            Some(v) => Some(v as i64),
            None => None::<i64>,
        },
{
    match parse_signed(s, i64::MIN as i128, i64::MAX as i128) {
        Some(v) => Some(v as i64),
        None => None,
    }
}

/// `s.parse::<i32>()`, as an `Option`.
pub fn parse_i32(s: &str) -> (r: Option<i32>)
    ensures
        r == match parsed_signed(s@, i32::MIN as int, i32::MAX as int) {
            Some(v) => Some(v as i32),
            None => None::<i32>,
        },
{
    match parse_signed(s, i32::MIN as i128, i32::MAX as i128) {
        Some(v) => Some(v as i32),
        None => None,
    }
}

} // verus!
