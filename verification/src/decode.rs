//! Percent-decoding of the path segments of a request.
//!
//! A segment arrives as it stood in the request path. Each `%` must be
//! followed by two hexadecimal digits and stands for the byte they give;
//! every other byte stands for itself. The decoded bytes must be UTF-8.

use std::string::FromUtf8Error;
use vstd::prelude::*;
use vstd::utf8::{
    decode_utf8, encode_utf8, encode_utf8_decode_utf8, encode_utf8_valid_utf8,
    is_ascii_chars, is_ascii_chars_encode_utf8, valid_utf8,
};
use crate::error::LookupError;

verus! {

/// `std::string::FromUtf8Error`, the error of `String::from_utf8`. Nothing
/// is said of it.
#[verifier::external_type_specification]
#[verifier::external_body]
pub struct ExFromUtf8Error(FromUtf8Error);

/// The byte `%`, which opens an escape.
pub const PERCENT: u8 = 37;

/// Whether `byte` is an ASCII hexadecimal digit: `0` to `9`, `A` to `F` or
/// `a` to `f`.
pub open spec fn is_hex_digit(byte: u8) -> bool {
    (48 <= byte <= 57) || (65 <= byte <= 70) || (97 <= byte <= 102)
}

/// The number that the hexadecimal digit `byte` stands for.
pub open spec fn hex_value(byte: u8) -> int {
    if 48 <= byte <= 57 {
        byte - 48
    } else if 65 <= byte <= 70 {
        byte - 55
    } else {
        byte - 87
    }
}

/// The byte that an escape with the digits `high` and `low` stands for.
pub open spec fn escaped_byte(high: u8, low: u8) -> u8 {
    (16 * hex_value(high) + hex_value(low)) as u8
}

/// `rest` with `byte` put in front, where there is a `rest`.
pub open spec fn preceded_by(byte: u8, rest: Option<Seq<u8>>) -> Option<Seq<u8>> {
    match rest {
        Some(bytes) => Some(seq![byte] + bytes),
        None => None,
    }
}

/// The bytes that `raw` decodes to, or `None` where a `%` in it is not
/// followed by two hexadecimal digits.
pub open spec fn percent_decoded(raw: Seq<u8>) -> Option<Seq<u8>>
    decreases raw.len(),
{
    if raw.len() == 0 {
        Some(Seq::empty())
    } else if raw[0] != PERCENT {
        preceded_by(raw[0], percent_decoded(raw.skip(1)))
    } else if raw.len() >= 3 && is_hex_digit(raw[1]) && is_hex_digit(raw[2]) {
        preceded_by(escaped_byte(raw[1], raw[2]), percent_decoded(raw.skip(3)))
    } else {
        None
    }
}

/// The text that the segment `raw` decodes to, or `None` where it is
/// malformed: an escape is broken, or the decoded bytes are not UTF-8.
pub open spec fn decoded_segment(raw: Seq<char>) -> Option<Seq<char>> {
    match percent_decoded(encode_utf8(raw)) {
        Some(bytes) => if valid_utf8(bytes) {
            Some(decode_utf8(bytes))
        } else {
            None
        },
        None => None,
    }
}

/// Bytes without a `%` decode to themselves.
pub proof fn lemma_percent_decoded_plain(raw: Seq<u8>)
    requires
        forall|i: int| 0 <= i < raw.len() ==> raw[i] != PERCENT,
    ensures
        percent_decoded(raw) == Some(raw),
    decreases raw.len(),
{
    if raw.len() > 0 {
        lemma_percent_decoded_plain(raw.skip(1));
        assert(seq![raw[0]] + raw.skip(1) =~= raw);
    }
}

/// An ASCII segment without a `%` decodes to itself.
pub proof fn lemma_decoded_segment_plain(raw: Seq<char>)
    requires
        is_ascii_chars(raw),
        forall|i: int| 0 <= i < raw.len() ==> raw[i] != '%',
    ensures
        decoded_segment(raw) == Some(raw),
{
    is_ascii_chars_encode_utf8(raw);
    let bytes = encode_utf8(raw);
    assert forall|i: int| 0 <= i < bytes.len() implies bytes[i] != PERCENT by {
        assert(raw[i] as u8 == bytes[i]);
        assert(raw[i] != '%');
    }
    lemma_percent_decoded_plain(bytes);
    encode_utf8_valid_utf8(raw);
    encode_utf8_decode_utf8(raw);
}

/// The value of a hexadecimal digit.
fn hex_digit_value(byte: u8) -> (r: Option<u8>)
    ensures
        r is Some <==> is_hex_digit(byte),
        r matches Some(value) ==> value == hex_value(byte) && value < 16,
{
    if 48 <= byte && byte <= 57 {
        Some(byte - 48)
    } else if 65 <= byte && byte <= 70 {
        Some(byte - 55)
    } else if 97 <= byte && byte <= 102 {
        Some(byte - 87)
    } else {
        None
    }
}

/// Decodes the escapes in `raw`.
pub fn percent_decode(raw: &[u8]) -> (r: Option<Vec<u8>>)
    ensures
        match r {
            Some(bytes) => percent_decoded(raw@) == Some(bytes@),
            None => percent_decoded(raw@) is None,
        },
{
    let len: usize = raw.len();
    let mut decoded: Vec<u8> = Vec::new();
    let mut i: usize = 0;
    assert(raw@.skip(0) =~= raw@);
    while i < len
        invariant
            i <= len,
            len == raw@.len(),
            match percent_decoded(raw@.skip(i as int)) {
                Some(rest) => percent_decoded(raw@) == Some(decoded@ + rest),
                None => percent_decoded(raw@) is None,
            },
        decreases len - i,
    {
        let ghost here = raw@.skip(i as int);
        let ghost before = decoded@;
        let byte: u8 = raw[i];
        if byte != PERCENT {
            decoded.push(byte);
            assert(here.skip(1) =~= raw@.skip(i + 1));
            assert forall|rest: Seq<u8>| before + (seq![byte] + rest) == decoded@ + rest by {
                assert(before + (seq![byte] + rest) =~= decoded@ + rest);
            }
            i += 1;
        } else {
            if len - i < 3 {
                return None;
            }
            match (hex_digit_value(raw[i + 1]), hex_digit_value(raw[i + 2])) {
                (Some(high), Some(low)) => {
                    let value: u8 = 16 * high + low;
                    decoded.push(value);
                    assert(here.skip(3) =~= raw@.skip(i + 3));
                    assert forall|rest: Seq<u8>| before + (seq![value] + rest) == decoded@
                        + rest by {
                        assert(before + (seq![value] + rest) =~= decoded@ + rest);
                    }
                    i += 3;
                },
                _ => {
                    return None;
                },
            }
        }
    }
    assert(decoded@ + Seq::<u8>::empty() =~= decoded@);
    Some(decoded)
}

/// Calls `String::from_utf8`. The contract says what std documents: an
/// error exactly where the bytes are not UTF-8, else the string that these
/// bytes encode.
#[verifier::external_body]
fn string_from_utf8(bytes: Vec<u8>) -> (r: Result<String, FromUtf8Error>)
    ensures
        match r {
            Ok(text) => encode_utf8(text@) == bytes@,
            Err(_) => !valid_utf8(bytes@),
        },
{
    String::from_utf8(bytes)
}

/// Decodes one path segment of a request, or returns `InvalidInput` where it
/// is malformed.
pub fn decode_segment(raw: &str) -> (r: Result<String, LookupError>)
    ensures
        match decoded_segment(raw@) {
            Some(text) => r is Ok && r->Ok_0@ == text,
            None => r == Err::<String, LookupError>(LookupError::InvalidInput),
        },
{
    match percent_decode(raw.as_bytes()) {
        None => Err(LookupError::InvalidInput),
        Some(bytes) => match string_from_utf8(bytes) {
            Err(_) => Err(LookupError::InvalidInput),
            Ok(text) => {
                proof {
                    encode_utf8_valid_utf8(text@);
                    encode_utf8_decode_utf8(text@);
                }
                Ok(text)
            },
        },
    }
}

} // verus!
