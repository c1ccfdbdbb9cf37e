//! Unsigned decimal numerals.
//!
//! A numeral is an optional `+` followed by one or more ASCII digits, the
//! form that Rust's own integer parsing accepts for unsigned types. A
//! numeral too large for the target type has no value.

use vstd::prelude::*;

verus! {

/// ASCII `0`.
pub const DIGIT_ZERO: u8 = 48;

/// ASCII `9`.
pub const DIGIT_NINE: u8 = 57;

/// ASCII `+`.
pub const PLUS_SIGN: u8 = 43;

/// `b` is an ASCII decimal digit.
pub open spec fn is_digit(b: u8) -> bool {
    DIGIT_ZERO <= b <= DIGIT_NINE
}

/// Every byte of `s` is an ASCII decimal digit.
pub open spec fn all_digits(s: Seq<u8>) -> bool {
    forall|i: int| 0 <= i < s.len() ==> is_digit(#[trigger] s[i])
}

/// The number that the digit string `s` writes in base ten.
pub open spec fn digits_value(s: Seq<u8>) -> nat
    decreases s.len(),
{
    if s.len() == 0 {
        0
    } else {
        10 * digits_value(s.drop_last()) + (s.last() - DIGIT_ZERO) as nat
    }
}

/// The digits of a numeral: `s` without one leading `+`, if more follows it.
pub open spec fn unsigned_part(s: Seq<u8>) -> Seq<u8> {
    if s.len() > 1 && s[0] == PLUS_SIGN {
        s.subrange(1, s.len() as int)
    } else {
        s
    }
}

/// The value of the numeral `s`, provided it is well formed and at most `max`.
pub open spec fn numeral_value(s: Seq<u8>, max: u64) -> Option<u64> {
    let digits = unsigned_part(s);
    if digits.len() > 0 && all_digits(digits) && digits_value(digits) <= max {
        Some(digits_value(digits) as u64)
    } else {
        None
    }
}

/// A digit string is worth at least as much as any of its prefixes.
pub proof fn lemma_prefix_value(s: Seq<u8>, k: int)
    requires
        0 <= k <= s.len(),
        all_digits(s),
    ensures
        digits_value(s.subrange(0, k)) <= digits_value(s),
    decreases s.len() - k,
{
    if k == s.len() {
        assert(s.subrange(0, k) =~= s);
    } else {
        let shorter = s.drop_last();
        assert(shorter.subrange(0, k) =~= s.subrange(0, k));
        lemma_prefix_value(shorter, k);
        assert(is_digit(s[s.len() - 1]));
    }
}

/// Reads the numeral `text`, giving its value if that is at most `max`.
pub fn parse_bounded(text: &[u8], max: u64) -> (r: Option<u64>)
    ensures
        r == numeral_value(text@, max),
{
    let n: usize = text.len();
    let start: usize = if n > 1 && text[0] == PLUS_SIGN {
        1
    } else {
        0
    };
    if start == n {
        return None;
    }
    let ghost digits = unsigned_part(text@);
    assert(digits == text@.subrange(start as int, n as int)) by {
        assert(text@.subrange(0, n as int) =~= text@);
    }
    let mut value: u64 = 0;
    let mut i: usize = start;
    while i < n
        invariant
            n == text.len(),
            start <= i <= n,
            digits == unsigned_part(text@),
            digits == text@.subrange(start as int, n as int),
            all_digits(digits.subrange(0, i - start)),
            value == digits_value(digits.subrange(0, i - start)),
            value <= max,
        decreases n - i,
    {
        let b: u8 = text[i];
        if b < DIGIT_ZERO || b > DIGIT_NINE {
            assert(!is_digit(digits[i - start]));
            return None;
        }
        let d: u64 = (b - DIGIT_ZERO) as u64;
        let ghost longer = digits.subrange(0, i - start + 1);
        proof {
            assert(longer.drop_last() =~= digits.subrange(0, i - start));
            assert(longer.last() == b);
            assert(digits_value(longer) == 10 * value + d);
            assert forall|j: int| 0 <= j < longer.len() implies is_digit(#[trigger] longer[j]) by {
                if j < i - start {
                    assert(longer[j] == digits.subrange(0, i - start)[j]);
                }
            }
        }
        if d > max || value > (max - d) / 10 {
            proof {
                if all_digits(digits) {
                    lemma_prefix_value(digits, i - start + 1);
                }
            }
            return None;
        }
        value = value * 10 + d;
        i += 1;
    }
    assert(digits.subrange(0, n - start) =~= digits);
    Some(value)
}

/// Reads the numeral `text` as a `u64`.
pub fn parse_u64(text: &[u8]) -> (r: Option<u64>)
    ensures
        r == numeral_value(text@, u64::MAX),
{
    parse_bounded(text, u64::MAX)
}

/// Reads the numeral `text` as a `u32`.
pub fn parse_u32(text: &[u8]) -> (r: Option<u32>)
    ensures
        r == match numeral_value(text@, u32::MAX as u64) {
            Some(v) => Some(v as u32),
            None => None,
        },
{
    match parse_bounded(text, u32::MAX as u64) {
        Some(v) => Some(v as u32),
        None => None,
    }
}

} // verus!
