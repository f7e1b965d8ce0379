//! Sizes as a person writes them: `4 MiB`, `1.5 GB`, `20000`.

use crate::number::is_digit;
use vstd::prelude::*;
use vstd::string::*;
use vstd::utf8::*;

verus! {

/// The most decimal digits that a size may be written with.
pub const MAX_DIGITS: usize = 20;

/// What `parse_size` makes of a text when its units are binary: the number
/// of bytes, or nothing where it finds no size in the text.
pub uninterp spec fn parsed_size(text: Seq<char>) -> Option<u64>;

/// The error of the `parse-size` crate.
#[verifier::external_type_specification]
#[verifier::external_body]
pub struct ExSizeError(parse_size::Error);

/// The number of decimal digits among `bytes`.
pub open spec fn digit_count(bytes: Seq<u8>) -> nat
    decreases bytes.len(),
{
    if bytes.len() == 0 {
        0
    } else {
        digit_count(bytes.drop_last()) + if is_digit(bytes.last()) {
            1nat
        } else {
            0nat
        }
    }
}

/// The size that a text states, in bytes, with `KB`, `MB` and so on read as
/// powers of 1024 like `KiB` and `MiB`. A text of more than twenty digits
/// states none.
pub open spec fn size_limit(text: Seq<char>) -> Option<u64> {
    if digit_count(encode_utf8(text)) > MAX_DIGITS {
        None
    } else {
        parsed_size(text)
    }
}

/// Calls `parse_size::Config::parse_size` on a configuration with binary
/// units. The result is taken to depend on the text alone: it is `Ok` of a
/// number where `parsed_size` names that number, and an error where it names
/// none. Texts of more than twenty digits are kept from the call, since a
/// mantissa of that length can overflow in it.
#[verifier::external_body]
fn parse_binary_size(text: &str) -> (r: Result<u64, parse_size::Error>)
    requires
        digit_count(encode_utf8(text@)) <= MAX_DIGITS,
    ensures
        r is Ok == parsed_size(text@) is Some,
        r is Ok ==> r->Ok_0 == parsed_size(text@)->0,
{
    parse_size::Config::new().with_binary().parse_size(text)
}

fn count_digits(text: &str) -> (r: usize)
    ensures
        r == digit_count(encode_utf8(text@)),
{
    let bytes = text.as_bytes();
    let mut count: usize = 0;
    let mut i: usize = 0;
    while i < bytes.len()
        invariant
            i <= bytes@.len(),
            count == digit_count(bytes@.take(i as int)),
            count <= i,
        decreases bytes@.len() - i,
    {
        let ghost now = bytes@.take(i + 1);
        assert(now.drop_last() =~= bytes@.take(i as int));
        assert(now.last() == bytes@[i as int]);
        if 0x30 <= bytes[i] && bytes[i] <= 0x39 {
            count += 1;
        }
        i += 1;
    }
    assert(bytes@.take(i as int) =~= bytes@);
    count
}

/// Reads the size that a text states.
pub fn read_size(text: &str) -> (r: Option<u64>)
    ensures
        r == size_limit(text@),
{
    if count_digits(text) > MAX_DIGITS {
        None
    } else {
        match parse_binary_size(text) {
            Ok(bytes) => Some(bytes),
            Err(_) => None,
        }
    }
}

} // verus!
