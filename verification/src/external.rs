//! The standard-library calls that the verified code makes and whose
//! behaviour vstd does not specify. Each function here makes exactly one
//! call; its contract restates what the standard library documents for it.

use vstd::prelude::*;
use vstd::utf8::{decode_utf8, valid_utf8};
use vstd::string::StringSliceAdditionalSpecFns;

verus! {

/// Whether every character is an ASCII decimal digit.
pub open spec fn all_digits(text: Seq<char>) -> bool {
    forall|i: int| 0 <= i < text.len() ==> '0' <= #[trigger] text[i] <= '9'
}

/// The number that a string of decimal digits denotes.
pub open spec fn digits_value(digits: Seq<char>) -> int
    decreases digits.len(),
{
    if digits.len() == 0 {
        0
    } else {
        digits_value(digits.drop_last()) * 10 + (digits.last() as int - '0' as int)
    }
}

/// What `u64::from_str` accepts: an optional `+`, then one or more decimal
/// digits, denoting a number that fits in a `u64`.
pub open spec fn parse_u64_spec(text: Seq<char>) -> Option<u64> {
    let digits = if text.len() > 0 && text[0] == '+' {
        text.drop_first()
    } else {
        text
    };
    if digits.len() > 0 && all_digits(digits) && digits_value(digits) <= u64::MAX {
        Some(digits_value(digits) as u64)
    } else {
        None
    }
}

/// `str::parse::<u64>` (that is, `u64::from_str`): its documentation says
/// the text must be an optional `+` sign followed by digits only, and that
/// a value too large for the type is an error.
#[verifier::external_body]
pub(crate) fn parse_u64(text: &str) -> (value: Option<u64>)
    ensures
        value == parse_u64_spec(text@),
{
    text.parse::<u64>().ok()
}


/// String equality (`<str as PartialEq>::eq`): two strings are equal when
/// they hold the same characters.
#[verifier::external_body]
pub(crate) fn str_equal(a: &str, b: &str) -> (equal: bool)
    ensures
        equal == (a@ == b@),
{
    a == b
}


/// Whether `c` has the Unicode `White_Space` property, which is what
/// `char::is_whitespace` tests.
pub open spec fn is_whitespace_spec(c: char) -> bool {
    ||| '\u{9}' <= c <= '\u{d}'
    ||| c == ' '
    ||| c == '\u{85}'
    ||| c == '\u{a0}'
    ||| c == '\u{1680}'
    ||| '\u{2000}' <= c <= '\u{200a}'
    ||| c == '\u{2028}'
    ||| c == '\u{2029}'
    ||| c == '\u{202f}'
    ||| c == '\u{205f}'
    ||| c == '\u{3000}'
}

/// `text` without its leading whitespace.
pub open spec fn trim_start_spec(text: Seq<char>) -> Seq<char>
    decreases text.len(),
{
    if text.len() > 0 && is_whitespace_spec(text[0]) {
        trim_start_spec(text.drop_first())
    } else {
        text
    }
}

/// `text` without its trailing whitespace.
pub open spec fn trim_end_spec(text: Seq<char>) -> Seq<char>
    decreases text.len(),
{
    if text.len() > 0 && is_whitespace_spec(text.last()) {
        trim_end_spec(text.drop_last())
    } else {
        text
    }
}

/// `text` without leading and trailing whitespace.
pub open spec fn trim_spec(text: Seq<char>) -> Seq<char> {
    trim_end_spec(trim_start_spec(text))
}

/// `str::trim`: its documentation says it returns the string with leading
/// and trailing whitespace removed, whitespace being the Unicode
/// `White_Space` property.
#[verifier::external_body]
pub(crate) fn trim(text: &str) -> (trimmed: &str)
    ensures
        trimmed@ == trim_spec(text@),
{
    text.trim()
}

/// `core::str::from_utf8`: its documentation says it succeeds exactly when
/// the bytes are valid UTF-8, and then returns them as a string.
#[verifier::external_body]
pub(crate) fn str_from_utf8(bytes: &[u8]) -> (text: Option<&str>)
    ensures
        text.is_some() <==> valid_utf8(bytes@),
        text matches Some(t) ==> t@ == decode_utf8(bytes@) && t.spec_bytes() == bytes@,
{
    core::str::from_utf8(bytes).ok()
}

/// `core::hint::spin_loop`: tells the processor it is busy-waiting; it has
/// no other effect.
#[verifier::external_body]
pub(crate) fn spin_loop() {
    core::hint::spin_loop()
}

/// The decimal digit character for `d` (`0..=9`).
pub open spec fn digit_char(d: int) -> char {
    (('0' as int) + d) as char
}

/// The decimal representation of `n`: its digits, most significant first,
/// with no sign, padding or leading zeros.
pub open spec fn decimal_spec(n: nat) -> Seq<char>
    decreases n,
{
    if n < 10 {
        seq![digit_char(n as int)]
    } else {
        decimal_spec(n / 10).push(digit_char((n % 10) as int))
    }
}

/// `u64::to_string` (through `Display`): the documentation says integers
/// are formatted in decimal, with no sign for unsigned values and no
/// padding when no width is given.
#[verifier::external_body]
pub(crate) fn u64_to_string(n: u64) -> (text: String)
    ensures
        text@ == decimal_spec(n as nat),
{
    n.to_string()
}

} // verus!
