//! Whole numbers as text: an optional sign and decimal digits, nothing else.

use crate::text::decimal;
use vstd::prelude::*;
use vstd::string::*;
use vstd::utf8::*;

verus! {

/// Whether a byte is a decimal digit.
pub open spec fn is_digit(b: u8) -> bool {
    0x30 <= b <= 0x39
}

/// Whether all of `bytes` are decimal digits.
pub open spec fn all_digits(bytes: Seq<u8>) -> bool {
    forall|i: int| 0 <= i < bytes.len() ==> is_digit(#[trigger] bytes[i])
}

/// The number that decimal digits spell.
pub open spec fn digits_value(bytes: Seq<u8>) -> nat
    decreases bytes.len(),
{
    if bytes.len() == 0 {
        0
    } else {
        digits_value(bytes.drop_last()) * 10 + (bytes.last() - 0x30) as nat
    }
}

/// Whether `bytes` start with a sign.
pub open spec fn has_sign(bytes: Seq<u8>) -> bool {
    bytes.len() > 0 && (bytes[0] == 0x2b || bytes[0] == 0x2d)
}

/// The digits of a number: what follows the sign, or all of it.
pub open spec fn digits_of(bytes: Seq<u8>) -> Seq<u8> {
    if has_sign(bytes) {
        bytes.skip(1)
    } else {
        bytes
    }
}

/// The whole number that `bytes` spell: an optional `+` or `-` and then
/// one decimal digit or more. Anything else spells no number.
pub open spec fn integer_of(bytes: Seq<u8>) -> Option<int> {
    let digits = digits_of(bytes);
    if digits.len() == 0 || !all_digits(digits) {
        None
    } else if bytes[0] == 0x2d {
        Some(-(digits_value(digits) as int))
    } else {
        Some(digits_value(digits) as int)
    }
}

/// The number that a text spells, if it fits into 64 bits with sign.
pub open spec fn i64_of(text: Seq<char>) -> Option<i64> {
    match integer_of(encode_utf8(text)) {
        Some(v) if i64::MIN <= v <= i64::MAX => Some(v as i64),
        _ => None,
    }
}

/// The number that a text spells, if it is written without a minus sign
/// and fits into 32 bits.
pub open spec fn u32_of(text: Seq<char>) -> Option<u32> {
    let bytes = encode_utf8(text);
    match integer_of(bytes) {
        Some(v) if bytes[0] != 0x2d && v <= u32::MAX => Some(v as u32),
        _ => None,
    }
}

/// More digits never spell a smaller number.
pub proof fn lemma_digits_value_grows(bytes: Seq<u8>, k: int)
    requires
        0 <= k <= bytes.len(),
        all_digits(bytes),
    ensures
        digits_value(bytes.take(k)) <= digits_value(bytes),
    decreases bytes.len() - k,
{
    if k < bytes.len() {
        assert(bytes.take(k + 1).drop_last() =~= bytes.take(k));
        assert(is_digit(bytes[k]));
        assert(bytes.take(k + 1).last() == bytes[k]);
        lemma_digits_value_grows(bytes, k + 1);
    } else {
        assert(bytes.take(k) =~= bytes);
    }
}

/// The limit beyond which no number of 64 bits lies, with or without sign.
pub const LIMIT: u128 = 0x8000_0000_0000_0000;

/// Reads the magnitude that digits spell, as long as it is not above
/// `LIMIT`. Nothing is read from what is empty, holds anything but digits,
/// or spells more.
fn read_digits(bytes: &[u8], start: usize) -> (r: Option<u128>)
    requires
        start <= bytes@.len(),
    ensures
        match r {
            Some(v) => bytes@.len() > start && all_digits(bytes@.skip(start as int)) && v
                == digits_value(bytes@.skip(start as int)) && v <= LIMIT,
            None => bytes@.len() == start || !all_digits(bytes@.skip(start as int))
                || digits_value(bytes@.skip(start as int)) > LIMIT,
        },
{
    let ghost digits = bytes@.skip(start as int);
    if bytes.len() == start {
        return None;
    }
    let mut value: u128 = 0;
    let mut i: usize = start;
    while i < bytes.len()
        invariant
            start <= i <= bytes@.len(),
            digits == bytes@.skip(start as int),
            all_digits(digits.take(i - start)),
            value == digits_value(digits.take(i - start)),
            value <= LIMIT,
        decreases bytes@.len() - i,
    {
        let b = bytes[i];
        assert(digits[i - start] == b);
        if !(0x30 <= b && b <= 0x39) {
            assert(!is_digit(digits[i - start]));
            return None;
        }
        let ghost now = digits.take(i - start + 1);
        assert(now.drop_last() =~= digits.take(i - start));
        assert(now.last() == b);
        assert forall|j: int| 0 <= j < now.len() implies is_digit(#[trigger] now[j]) by {
            if j < now.len() - 1 {
                assert(now[j] == digits.take(i - start)[j]);
            }
        }
        let next: u128 = value * 10 + (b - 0x30) as u128;
        if next > LIMIT {
            proof {
                if all_digits(digits) {
                    lemma_digits_value_grows(digits, i - start + 1);
                }
            }
            return None;
        }
        value = next;
        i += 1;
    }
    assert(digits.take(i - start) =~= digits);
    Some(value)
}

/// Reads a number of 64 bits with sign from a text.
pub fn parse_i64(text: &str) -> (r: Option<i64>)
    ensures
        r == i64_of(text@),
{
    let bytes = text.as_bytes();
    if bytes.len() == 0 {
        return None;
    }
    let negative = bytes[0] == 0x2d;
    let start: usize = if bytes[0] == 0x2b || bytes[0] == 0x2d {
        1
    } else {
        0
    };
    assert(bytes@.skip(0) =~= bytes@);
    match read_digits(bytes, start) {
        None => None,
        Some(v) => {
            if negative {
                Some((0 - v as i128) as i64)
            } else if v < LIMIT {
                Some(v as i64)
            } else {
                None
            }
        },
    }
}

/// Reads a number of 32 bits without sign from a text.
pub fn parse_u32(text: &str) -> (r: Option<u32>)
    ensures
        r == u32_of(text@),
{
    let bytes = text.as_bytes();
    if bytes.len() == 0 {
        return None;
    }
    if bytes[0] == 0x2d {
        return None;
    }
    let start: usize = if bytes[0] == 0x2b {
        1
    } else {
        0
    };
    assert(bytes@.skip(0) =~= bytes@);
    match read_digits(bytes, start) {
        None => None,
        Some(v) => {
            if v <= u32::MAX as u128 {
                Some(v as u32)
            } else {
                None
            }
        },
    }
}

/// The bytes of a number in decimal digits.
pub open spec fn digit_bytes(n: nat) -> Seq<u8>
    decreases n,
{
    if n < 10 {
        seq![(0x30 + n) as u8]
    } else {
        digit_bytes(n / 10).push((0x30 + n % 10) as u8)
    }
}

proof fn lemma_digit_bytes(n: nat)
    ensures
        digit_bytes(n).len() > 0,
        all_digits(digit_bytes(n)),
        !has_sign(digit_bytes(n)),
        digits_value(digit_bytes(n)) == n,
    decreases n,
{
    if n < 10 {
        assert(digit_bytes(n).drop_last() =~= Seq::<u8>::empty());
        assert(digits_value(Seq::<u8>::empty()) == 0);
    } else {
        lemma_digit_bytes(n / 10);
        let shorter = digit_bytes(n / 10);
        let all = digit_bytes(n);
        assert(all.drop_last() =~= shorter);
        assert(all[0] == shorter[0]);
        assert forall|i: int| 0 <= i < all.len() implies is_digit(#[trigger] all[i]) by {
            if i < shorter.len() {
                assert(all[i] == shorter[i]);
            }
        }
    }
}

proof fn lemma_decimal_is_ascii(n: nat)
    ensures
        is_ascii_chars(decimal(n)),
        decimal(n).len() == digit_bytes(n).len(),
        forall|i: int| 0 <= i < decimal(n).len() ==> (#[trigger] decimal(n)[i]) as u8 == digit_bytes(n)[i],
    decreases n,
{
    if n >= 10 {
        lemma_decimal_is_ascii(n / 10);
        let shorter = decimal(n / 10);
        let all = decimal(n);
        assert forall|i: int| 0 <= i < all.len() implies '\0' <= #[trigger] all[i] <= '\u{7f}' && all[i] as u8
            == digit_bytes(n)[i] by {
            if i < shorter.len() {
                assert(all[i] == shorter[i]);
            }
        }
    }
}

/// A number written in decimal is read back as itself.
pub proof fn lemma_decimal_is_read_back(n: u32)
    ensures
        u32_of(decimal(n as nat)) == Some(n),
{
    lemma_decimal_is_ascii(n as nat);
    lemma_digit_bytes(n as nat);
    is_ascii_chars_encode_utf8(decimal(n as nat));
    assert(encode_utf8(decimal(n as nat)) =~= digit_bytes(n as nat));
}

} // verus!
