//! Text functions of the standard library that the verifier has no
//! specification for.
//!
//! Nothing in this file is proved: each item states what the standard
//! library does, under a name where the text itself is not promised.

use vstd::prelude::*;

verus! {

/// The text that the standard library's hexadecimal debug form (`{:x?}`)
/// gives for one byte.
pub uninterp spec fn hex_text(byte: u8) -> Seq<char>;

/// The text that the standard library's hexadecimal debug form (`{:x?}`)
/// gives for a list of bytes.
pub uninterp spec fn hex_list_text(bytes: Seq<u8>) -> Seq<char>;

/// `format!` with `{:x?}` for one byte. The standard library does not
/// promise the wording of a debug form. The text depends on the value alone,
/// and the contract gives it a name.
#[verifier::external_body]
pub(crate) fn hex_of_byte(byte: u8) -> (text: String)
    ensures
        text@ == hex_text(byte),
{
    format!("{:x?}", byte)
}

/// `format!` with `{:x?}` for a slice of bytes; named as for one byte.
#[verifier::external_body]
pub(crate) fn hex_of_bytes(bytes: &[u8]) -> (text: String)
    ensures
        text@ == hex_list_text(bytes@),
{
    format!("{:x?}", bytes)
}

/// The text that the standard library's `to_lowercase` gives for a text.
pub uninterp spec fn lowercase_text(text: Seq<char>) -> Seq<char>;

/// `str::to_lowercase`. What lower case is follows the Unicode tables that
/// the standard library was built with and nothing else; the contract gives
/// the result a name.
#[verifier::external_body]
pub(crate) fn lowercase(text: &str) -> (lowered: String)
    ensures
        lowered@ == lowercase_text(text@),
{
    text.to_lowercase()
}

/// Whether `digits` is one or more of the characters `0` to `9`.
pub open spec fn is_digits(digits: Seq<char>) -> bool {
    &&& digits.len() > 0
    &&& forall|i: int| 0 <= i < digits.len() ==> 48 <= #[trigger] digits[i] as u32 <= 57
}

/// The number that a run of decimal digits writes.
pub open spec fn digits_value(digits: Seq<char>) -> nat
    decreases digits.len(),
{
    if digits.len() == 0 {
        0
    } else {
        digits_value(digits.drop_last()) * 10 + (digits.last() as u32 - 48) as nat
    }
}

/// The number that a text writes in decimal: an optional `+`, then one or
/// more digits and nothing else, for a number that fits `usize`. `None` for
/// every other text.
pub open spec fn decimal_value(text: Seq<char>) -> Option<usize> {
    let digits = if text.len() > 0 && text[0] == '+' {
        text.skip(1)
    } else {
        text
    };
    if is_digits(digits) && digits_value(digits) <= usize::MAX {
        Some(digits_value(digits) as usize)
    } else {
        None
    }
}

/// The message of the error with which the standard library refuses to read
/// a text as a `usize`.
pub uninterp spec fn parse_failure_text(text: Seq<char>) -> Seq<char>;

/// `str::parse` for `usize`, with the error turned into its message. The
/// standard library reads an optional `+` followed by decimal digits only,
/// and fails on an empty text, on any other character and on a number too
/// large for `usize`. The wording of the error is not promised; the contract
/// gives it a name.
#[verifier::external_body]
pub(crate) fn parse_usize(text: &str) -> (out: Result<usize, String>)
    ensures
        match out {
            Ok(value) => decimal_value(text@) == Some(value),
            Err(message) => decimal_value(text@) is None && message@ == parse_failure_text(text@),
        },
{
    match text.parse::<usize>() {
        Ok(value) => Ok(value),
        Err(error) => Err(error.to_string()),
    }
}

} // verus!
