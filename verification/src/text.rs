//! Conversions between bytes, integers and text that the controller makes
//! with the standard library.
use vstd::prelude::*;

use vstd::utf8::{decode_utf8, valid_utf8};

verus! {

/// The character of a decimal digit.
pub open spec fn digit_char(d: nat) -> char {
    (48 + d) as char
}

/// The decimal digits of a natural number, most significant first, without
/// leading zeros.
pub open spec fn decimal_digits(n: nat) -> Seq<char>
    decreases n,
{
    if n < 10 {
        seq![digit_char(n)]
    } else {
        decimal_digits(n / 10).push(digit_char(n % 10))
    }
}

/// The decimal text of an integer, with a leading `-` when it is negative.
pub open spec fn decimal_text(i: int) -> Seq<char> {
    if i < 0 {
        seq!['-'] + decimal_digits((-i) as nat)
    } else {
        decimal_digits(i as nat)
    }
}

/// Calls `i64::to_string`, which writes the integer in decimal with a `-`
/// sign when it is negative; the contract claims that text.
#[verifier::external_body]
pub fn i64_to_text(i: i64) -> (s: String)
    ensures
        s@ == decimal_text(i as int),
{
    i.to_string()
}

/// Calls `String::from_utf8`, which succeeds exactly when the bytes are
/// valid UTF-8 and then holds the characters they encode; the contract
/// claims both.
#[verifier::external_body]
pub fn utf8_text(bytes: Vec<u8>) -> (r: Option<String>)
    ensures
        r is Some <==> valid_utf8(bytes@),
        r matches Some(s) ==> s@ == decode_utf8(bytes@),
{
    String::from_utf8(bytes).ok()
}

/// The text that `String::from_utf8_lossy` makes of bytes.
pub uninterp spec fn utf8_lossy(bytes: Seq<u8>) -> Seq<char>;

/// Calls `String::from_utf8_lossy` and takes the result as an owned string.
/// It replaces each invalid sequence with U+FFFD and so gives valid UTF-8
/// unchanged; the contract claims that last fact and that the result is the
/// text named by [`utf8_lossy`].
#[verifier::external_body]
pub fn utf8_text_lossy(bytes: &Vec<u8>) -> (s: String)
    ensures
        s@ == utf8_lossy(bytes@),
        valid_utf8(bytes@) ==> s@ == decode_utf8(bytes@),
{
    String::from_utf8_lossy(bytes.as_slice()).into_owned()
}

} // verus!
