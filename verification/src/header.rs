//! Reading unsigned decimal numbers out of response header values.
//!
//! A header value arrives as raw bytes. It counts as text when every byte is
//! visible ASCII or a tab, and as a number when that text is an optional `+`
//! followed by at least one decimal digit, with a value that fits 64 bits.

use vstd::prelude::*;
use crate::error::{Defect, Error};

verus! {

/// The header of the first segment answer that tells how many segments there are.
pub const SEGMENT_COUNT: &'static str = "Segment-Count";

/// The header of a `HEAD` answer that tells the size of the resource.
pub const CONTENT_LENGTH: &'static str = "content-length";

/// A byte that may stand in a header value read as text.
pub open spec fn is_visible_ascii(byte: u8) -> bool {
    (32 <= byte && byte < 127) || byte == 9
}

/// Whether a header value can be read as text.
pub open spec fn is_text(value: Seq<u8>) -> bool {
    forall|i: int| 0 <= i < value.len() ==> is_visible_ascii(#[trigger] value[i])
}

/// An ASCII decimal digit.
pub open spec fn is_digit(byte: u8) -> bool {
    48 <= byte && byte <= 57
}

/// Whether every byte is an ASCII decimal digit.
pub open spec fn all_digits(digits: Seq<u8>) -> bool {
    forall|i: int| 0 <= i < digits.len() ==> is_digit(#[trigger] digits[i])
}

/// The number that a run of decimal digits stands for, most significant first.
pub open spec fn digits_value(digits: Seq<u8>) -> nat
    decreases digits.len(),
{
    if digits.len() == 0 {
        0
    } else {
        digits_value(digits.drop_last()) * 10 + (digits.last() - 48) as nat
    }
}

/// The digits of a number's text: the text without one leading `+`.
pub open spec fn unsigned_digits(text: Seq<u8>) -> Seq<u8> {
    if text.len() > 0 && text[0] == 43 {
        text.subrange(1, text.len() as int)
    } else {
        text
    }
}

/// The unsigned 64-bit number that a text stands for, if it stands for one.
pub open spec fn parsed_u64(text: Seq<u8>) -> Option<u64> {
    let digits = unsigned_digits(text);
    if digits.len() > 0 && all_digits(digits) && digits_value(digits) <= u64::MAX {
        Some(digits_value(digits) as u64)
    } else {
        None
    }
}

/// The number in a header value: the value must be text, and the text a number.
pub open spec fn header_u64(value: Seq<u8>) -> Option<u64> {
    if is_text(value) {
        parsed_u64(value)
    } else {
        None
    }
}

/// A run of digits is worth at least as much as any of its prefixes.
pub proof fn lemma_digits_value_prefix(digits: Seq<u8>, n: int)
    requires
        0 <= n <= digits.len(),
        all_digits(digits),
    ensures
        digits_value(digits.subrange(0, n)) <= digits_value(digits),
    decreases digits.len(),
{
    if n == digits.len() {
        assert(digits.subrange(0, n) =~= digits);
    } else {
        let shorter = digits.drop_last();
        assert(all_digits(shorter)) by {
            assert forall|i: int| 0 <= i < shorter.len() implies is_digit(#[trigger] shorter[i]) by {
                assert(shorter[i] == digits[i]);
            }
        }
        lemma_digits_value_prefix(shorter, n);
        assert(shorter.subrange(0, n) =~= digits.subrange(0, n));
        assert(is_digit(digits[digits.len() - 1]));
    }
}

/// Whether a header value can be read as text.
pub fn is_visible_text(value: &[u8]) -> (text: bool)
    ensures
        text == is_text(value@),
{
    let mut i: usize = 0;
    while i < value.len()
        invariant
            i <= value.len(),
            forall|k: int| 0 <= k < i ==> is_visible_ascii(#[trigger] value@[k]),
        decreases value.len() - i,
    {
        let byte = value[i];
        if !((32 <= byte && byte < 127) || byte == 9) {
            return false;
        }
        i += 1;
    }
    true
}

/// Reads an unsigned decimal number: an optional `+`, then digits only.
/// Gives `None` for the empty text, a lone sign, any other byte, and a
/// value above `u64::MAX`.
pub fn parse_u64(text: &[u8]) -> (number: Option<u64>)
    ensures
        number == parsed_u64(text@),
{
    let start: usize = if text.len() > 0 && text[0] == 43 { 1 } else { 0 };
    let ghost digits = unsigned_digits(text@);
    assert(digits =~= text@.subrange(start as int, text@.len() as int));
    if start == text.len() {
        return None;
    }
    let mut value: u64 = 0;
    let mut i: usize = start;
    assert(digits.subrange(0, 0) =~= Seq::<u8>::empty());
    while i < text.len()
        invariant
            start <= i <= text.len(),
            start < text.len(),
            digits == unsigned_digits(text@),
            digits == text@.subrange(start as int, text@.len() as int),
            all_digits(digits.subrange(0, i - start)),
            value == digits_value(digits.subrange(0, i - start)),
        decreases text.len() - i,
    {
        let byte = text[i];
        let ghost seen = digits.subrange(0, i - start);
        let ghost next = digits.subrange(0, i - start + 1);
        assert(next.drop_last() =~= seen);
        assert(next.last() == byte);
        if !(48 <= byte && byte <= 57) {
            assert(!is_digit(digits[i - start]));
            return None;
        }
        assert(all_digits(next)) by {
            assert forall|k: int| 0 <= k < next.len() implies is_digit(#[trigger] next[k]) by {
                if k < seen.len() {
                    assert(next[k] == seen[k]);
                }
            }
        }
        let digit: u64 = (byte - 48) as u64;
        let grown = match value.checked_mul(10) {
            Some(tens) => tens.checked_add(digit),
            None => None,
        };
        match grown {
            Some(sum) => {
                value = sum;
            },
            None => {
                proof {
                    assert(digits_value(next) > u64::MAX);
                    if all_digits(digits) {
                        lemma_digits_value_prefix(digits, i - start + 1);
                    }
                }
                return None;
            },
        }
        i += 1;
    }
    assert(digits.subrange(0, i - start) =~= digits);
    Some(value)
}

/// Reads the number in a header value, if the value is text that stands for one.
pub fn parse_header_u64(value: &[u8]) -> (number: Option<u64>)
    ensures
        number == header_u64(value@),
{
    if is_visible_text(value) {
        parse_u64(value)
    } else {
        None
    }
}

/// What the `Segment-Count` header of the first segment answer yields.
pub open spec fn segment_count_of(header: Option<Seq<u8>>) -> Result<u64, Error> {
    match header {
        None => Err(Error::UnexpectedResponse(Defect::MissingSegmentCount)),
        Some(value) => if !is_text(value) {
            Err(Error::UnexpectedResponse(Defect::SegmentCountNotText))
        } else {
            match parsed_u64(value) {
                Some(count) => Ok(count),
                None => Err(Error::UnexpectedResponse(Defect::SegmentCountNotInteger)),
            }
        },
    }
}

/// Learns the number of segments from the `Segment-Count` header of the
/// first segment answer. Each way in which the header can be unusable has
/// its own defect.
pub fn extract_segment_count(header: Option<&[u8]>) -> (count: Result<u64, Error>)
    ensures
        count == segment_count_of(
            match header {
                Some(value) => Some(value@),
                None => None,
            },
        ),
{
    match header {
        None => Err(Error::UnexpectedResponse(Defect::MissingSegmentCount)),
        Some(value) => {
            if !is_visible_text(value) {
                Err(Error::UnexpectedResponse(Defect::SegmentCountNotText))
            } else {
                match parse_u64(value) {
                    Some(count) => Ok(count),
                    None => Err(Error::UnexpectedResponse(Defect::SegmentCountNotInteger)),
                }
            }
        },
    }
}

/// What the `Content-Length` header of a `HEAD` answer yields.
pub open spec fn content_length_of(header: Option<Seq<u8>>) -> Result<u64, Error> {
    match header {
        Some(value) => match header_u64(value) {
            Some(length) => Ok(length),
            None => Err(Error::UnexpectedResponse(Defect::InvalidContentLength)),
        },
        None => Err(Error::UnexpectedResponse(Defect::InvalidContentLength)),
    }
}

/// Learns the size of the resource from the `Content-Length` header of a
/// `HEAD` answer. An absent header and an unusable one are the same defect.
pub fn extract_content_length(header: Option<&[u8]>) -> (length: Result<u64, Error>)
    ensures
        length == content_length_of(
            match header {
                Some(value) => Some(value@),
                None => None,
            },
        ),
{
    match header {
        Some(value) => match parse_header_u64(value) {
            Some(length) => Ok(length),
            None => Err(Error::UnexpectedResponse(Defect::InvalidContentLength)),
        },
        None => Err(Error::UnexpectedResponse(Defect::InvalidContentLength)),
    }
}

} // verus!
