//! Decimal text of unsigned integers.
//!
//! A number is written as an optional `+` followed by one or more ASCII
//! digits. Leading zeros are allowed; a sign alone, an empty text, any other
//! character, or a value above the target type's maximum is rejected.

use vstd::prelude::*;

verus! {

/// The byte of the character `+`.
const PLUS_SIGN: u8 = 43;

/// The byte of the digit `0`.
const DIGIT_ZERO: u8 = 48;

/// The byte of the digit `9`.
const DIGIT_NINE: u8 = 57;

/// Whether `c` is one of the ten ASCII decimal digits.
pub open spec fn is_digit(c: char) -> bool {
    '0' <= c && c <= '9'
}

/// The number that the digit `c` stands for.
pub open spec fn digit_value(c: char) -> nat
    recommends
        is_digit(c),
{
    (c as u32 - '0' as u32) as nat
}

/// Whether every character of `digits` is a decimal digit.
pub open spec fn all_digits(digits: Seq<char>) -> bool {
    forall|i: int| 0 <= i < digits.len() ==> is_digit(#[trigger] digits[i])
}

/// The number that a run of digits denotes, most significant digit first.
pub open spec fn decimal_value(digits: Seq<char>) -> nat
    decreases digits.len(),
{
    if digits.len() == 0 {
        0
    } else {
        decimal_value(digits.drop_last()) * 10 + digit_value(digits.last())
    }
}

/// The text without its optional leading `+`.
pub open spec fn unsigned_digits(text: Seq<char>) -> Seq<char> {
    if text.len() > 0 && text[0] == '+' {
        text.skip(1)
    } else {
        text
    }
}

/// The number that `text` denotes as an unsigned integer no greater than
/// `max`, or `None` where it denotes none.
pub open spec fn parse_unsigned(text: Seq<char>, max: nat) -> Option<nat> {
    let digits = unsigned_digits(text);
    if digits.len() > 0 && all_digits(digits) && decimal_value(digits) <= max {
        Some(decimal_value(digits))
    } else {
        None
    }
}

/// A run of digits denotes at least as much as any of its prefixes.
pub proof fn lemma_prefix_value(digits: Seq<char>, k: int)
    requires
        0 <= k <= digits.len(),
    ensures
        decimal_value(digits.take(k)) <= decimal_value(digits),
    decreases digits.len() - k,
{
    if k == digits.len() {
        assert(digits.take(k) =~= digits);
    } else {
        let shorter = digits.drop_last();
        assert(shorter.take(k) =~= digits.take(k));
        lemma_prefix_value(shorter, k);
    }
}

/// Appending one digit multiplies the value by ten and adds the digit.
pub proof fn lemma_value_step(text: Seq<char>, start: int, i: int)
    requires
        0 <= start <= i < text.len(),
    ensures
        decimal_value(text.subrange(start, i + 1)) == decimal_value(text.subrange(start, i)) * 10
            + digit_value(text[i]),
{
    let longer = text.subrange(start, i + 1);
    assert(longer.drop_last() =~= text.subrange(start, i));
    assert(longer.last() == text[i]);
}

/// Reads `text` as an unsigned decimal number no greater than `max`.
///
/// The result is the number that `text` denotes, and `None` exactly when it
/// denotes none: when it is empty or a lone sign, when it holds anything
/// but digits after an optional `+`, or when the number is above `max`.
pub fn parse_bounded(text: &str, max: u64) -> (r: Option<u64>)
    ensures
        r matches Some(v) ==> parse_unsigned(text@, max as nat) == Some(v as nat),
        r is None ==> parse_unsigned(text@, max as nat) is None,
{
    if !text.is_ascii() {
        proof {
            let t = text@;
            let i = choose|i: int| 0 <= i < t.len() && !('\0' <= #[trigger] t[i] <= '\u{7f}');
            let digits = unsigned_digits(t);
            let at = if digits.len() == t.len() {
                i
            } else {
                i - 1
            };
            assert(!is_digit(digits[at]));
        }
        return None;
    }
    let bytes = text.as_bytes();
    let n: usize = bytes.len();
    proof {
        vstd::string::is_ascii_spec_bytes(text);
    }
    let start: usize = if n > 0 && bytes[0] == PLUS_SIGN {
        1
    } else {
        0
    };
    let ghost digits = unsigned_digits(text@);
    assert(digits =~= text@.subrange(start as int, n as int));
    if start == n {
        return None;
    }
    let mut acc: u64 = 0;
    let mut i: usize = start;
    assert(text@.subrange(start as int, start as int) =~= Seq::<char>::empty());
    while i < n
        invariant
            start <= i <= n,
            n == text@.len(),
            n == bytes@.len(),
            vstd::string::is_ascii(text),
            forall|j: int| 0 <= j < n ==> bytes@[j] == text@[j] as u8,
            digits == unsigned_digits(text@),
            digits == text@.subrange(start as int, n as int),
            forall|j: int| start <= j < i ==> is_digit(#[trigger] text@[j]),
            acc as nat == decimal_value(text@.subrange(start as int, i as int)),
            acc <= max,
        decreases n - i,
    {
        let b: u8 = bytes[i];
        let ghost c = text@[i as int];
        assert(b == c as u8 && '\0' <= c <= '\u{7f}');
        if b < DIGIT_ZERO || b > DIGIT_NINE {
            assert(!is_digit(digits[i - start]));
            return None;
        }
        let d: u64 = (b - DIGIT_ZERO) as u64;
        assert(is_digit(c) && d as nat == digit_value(c));
        proof {
            lemma_value_step(text@, start as int, i as int);
        }
        if d > max || acc > (max - d) / 10 {
            proof {
                assert(acc * 10 + d > max);
                lemma_prefix_value(digits, i + 1 - start);
                assert(digits.take(i + 1 - start) =~= text@.subrange(start as int, i + 1));
            }
            return None;
        }
        acc = acc * 10 + d;
        i = i + 1;
    }
    assert(all_digits(digits));
    Some(acc)
}

/// Reads `text` as an unsigned 16-bit integer.
pub fn parse_u16(text: &str) -> (r: Option<u16>)
    ensures
        r matches Some(v) ==> parse_unsigned(text@, u16::MAX as nat) == Some(v as nat),
        r is None ==> parse_unsigned(text@, u16::MAX as nat) is None,
{
    match parse_bounded(text, 65535) {
        Some(v) => Some(v as u16),
        None => None,
    }
}

/// Reads `text` as an unsigned 64-bit integer.
pub fn parse_u64(text: &str) -> (r: Option<u64>)
    ensures
        r matches Some(v) ==> parse_unsigned(text@, u64::MAX as nat) == Some(v as nat),
        r is None ==> parse_unsigned(text@, u64::MAX as nat) is None,
{
    parse_bounded(text, u64::MAX)
}

} // verus!
