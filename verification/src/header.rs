//! What the downloader reads from a response's status and header values.

use vstd::prelude::*;
use vstd::string::StringSliceAdditionalSpecFns;
use vstd::utf8::{
    decode_utf8, encode_utf8, encode_utf8_decode_utf8, encode_utf8_valid_utf8, is_ascii_chars,
    is_ascii_chars_encode_utf8, valid_utf8,
};

verus! {

/// The horizontal tab.
pub const TAB: u8 = 9;

/// The space, the first of the printable ASCII characters.
pub const SPACE: u8 = 32;

/// The delete character, which follows the last printable ASCII character.
pub const DELETE: u8 = 127;

/// The plus sign.
pub const PLUS: u8 = 43;

/// The digit zero.
pub const DIGIT_ZERO: u8 = 48;

/// The digit nine.
pub const DIGIT_NINE: u8 = 57;

/// True for the bytes a header value may hold if it is to be read as text:
/// the printable ASCII characters, the space and the horizontal tab.
pub open spec fn is_visible_ascii(byte: u8) -> bool {
    (SPACE <= byte < DELETE) || byte == TAB
}

/// True when every byte of the header value is visible ASCII.
pub open spec fn is_text(value: Seq<u8>) -> bool {
    forall|i: int| 0 <= i < value.len() ==> is_visible_ascii(#[trigger] value[i])
}

/// The characters of a header value that is text: one per byte.
pub open spec fn text_of(value: Seq<u8>) -> Seq<char> {
    Seq::new(value.len(), |i: int| value[i] as char)
}

/// A header value read as text: its characters when every byte is visible
/// ASCII, nothing otherwise.
pub open spec fn spec_header_text(value: Seq<u8>) -> Option<Seq<char>> {
    if is_text(value) {
        Some(text_of(value))
    } else {
        None
    }
}

/// True for the ASCII decimal digits.
pub open spec fn is_digit(byte: u8) -> bool {
    DIGIT_ZERO <= byte <= DIGIT_NINE
}

/// True when every byte is an ASCII decimal digit.
pub open spec fn all_digits(digits: Seq<u8>) -> bool {
    forall|i: int| 0 <= i < digits.len() ==> is_digit(#[trigger] digits[i])
}

/// The number that a sequence of decimal digits writes, most significant
/// digit first.
pub open spec fn decimal_value(digits: Seq<u8>) -> nat
    decreases digits.len(),
{
    if digits.len() == 0 {
        0
    } else {
        (decimal_value(digits.drop_last()) * 10 + (digits.last() - DIGIT_ZERO)) as nat
    }
}

/// The digits of a header value that may start with a plus sign.
pub open spec fn unsigned_digits(value: Seq<u8>) -> Seq<u8> {
    if value.len() > 0 && value[0] == PLUS {
        value.skip(1)
    } else {
        value
    }
}

/// The length that a content-length header value declares: the value is an
/// optional plus sign followed by at least one decimal digit and nothing
/// else, and the number fits in 64 bits. Any other value declares none.
pub open spec fn spec_parse_content_length(value: Seq<u8>) -> Option<u64> {
    let digits = unsigned_digits(value);
    if digits.len() > 0 && all_digits(digits) && decimal_value(digits) <= u64::MAX {
        Some(decimal_value(digits) as u64)
    } else {
        None
    }
}

/// True for the status codes that let the download go ahead: 200 to 299.
pub open spec fn spec_is_success(status: u16) -> bool {
    200 <= status < 300
}

/// A longer digit sequence never writes a smaller number than its beginning.
pub proof fn lemma_decimal_value_prefix(digits: Seq<u8>, n: int)
    requires
        0 <= n <= digits.len(),
        all_digits(digits),
    ensures
        decimal_value(digits.subrange(0, n)) <= decimal_value(digits),
    decreases digits.len() - n,
{
    if n < digits.len() {
        let shorter = digits.drop_last();
        assert(all_digits(shorter)) by {
            assert forall|i: int| 0 <= i < shorter.len() implies is_digit(
                #[trigger] shorter[i],
            ) by {
                assert(shorter[i] == digits[i]);
            }
        }
        lemma_decimal_value_prefix(shorter, n);
        assert(shorter.subrange(0, n) =~= digits.subrange(0, n));
        assert(is_digit(digits[digits.len() - 1]));
    } else {
        assert(digits.subrange(0, n) =~= digits);
    }
}

/// Tells whether a status code is a success.
pub fn is_success(status: u16) -> (success: bool)
    ensures
        success == spec_is_success(status),
{
    200 <= status && status < 300
}

/// Tells whether every byte of a header value is visible ASCII.
pub fn is_text_value(value: &[u8]) -> (text: bool)
    ensures
        text == is_text(value@),
{
    let mut index: usize = 0;
    while index < value.len()
        invariant
            index <= value@.len(),
            forall|i: int| 0 <= i < index ==> is_visible_ascii(#[trigger] value@[i]),
        decreases value@.len() - index,
    {
        let byte: u8 = value[index];
        if !((SPACE <= byte && byte < DELETE) || byte == TAB) {
            return false;
        }
        index = index + 1;
    }
    true
}

/// `std::str::from_utf8`, with the error dropped: the bytes as a string
/// slice when they are valid UTF-8, nothing otherwise. The slice is made of
/// the very bytes that were given.
#[verifier::external_body]
fn utf8_text(value: &[u8]) -> (text: Option<&str>)
    ensures
        text.is_some() == valid_utf8(value@),
        text matches Some(t) ==> t.spec_bytes() == value@,
{
    std::str::from_utf8(value).ok()
}

/// A header value that is text is valid UTF-8, and decodes to one character
/// per byte.
pub proof fn lemma_text_is_utf8(value: Seq<u8>)
    requires
        is_text(value),
    ensures
        valid_utf8(value),
        decode_utf8(value) == text_of(value),
{
    let chars = text_of(value);
    assert(is_ascii_chars(chars)) by {
        assert forall|i: int| 0 <= i < chars.len() implies '\0' <= #[trigger] chars[i]
            <= '\u{7f}' by {
            assert(is_visible_ascii(value[i]));
        }
    }
    is_ascii_chars_encode_utf8(chars);
    assert(encode_utf8(chars) =~= value) by {
        assert forall|i: int| 0 <= i < value.len() implies encode_utf8(chars)[i] == value[i] by {
            assert(is_visible_ascii(value[i]));
            assert(chars[i] as u8 == encode_utf8(chars)[i]);
        }
    }
    encode_utf8_valid_utf8(chars);
    encode_utf8_decode_utf8(chars);
}

/// Reads a header value as text.
pub fn header_text(value: &[u8]) -> (text: Option<String>)
    ensures
        text.deep_view() == spec_header_text(value@),
{
    if !is_text_value(value) {
        return None;
    }
    proof {
        lemma_text_is_utf8(value@);
    }
    match utf8_text(value) {
        Some(text) => {
            proof {
                encode_utf8_decode_utf8(text@);
            }
            Some(text.to_owned())
        },
        None => None,
    }
}

/// Reads the length that a content-length header value declares.
pub fn parse_content_length(value: &[u8]) -> (length: Option<u64>)
    ensures
        length == spec_parse_content_length(value@),
{
    let ghost digits = unsigned_digits(value@);
    let start: usize = if value.len() > 0 && value[0] == PLUS {
        1
    } else {
        0
    };
    if start == value.len() {
        return None;
    }
    let mut total: u64 = 0;
    let mut index: usize = start;
    while index < value.len()
        invariant
            start <= index <= value@.len(),
            digits == unsigned_digits(value@),
            digits == value@.skip(start as int),
            all_digits(digits.subrange(0, index - start)),
            total == decimal_value(digits.subrange(0, index - start)),
        decreases value@.len() - index,
    {
        let byte: u8 = value[index];
        let ghost seen = digits.subrange(0, index - start);
        let ghost next = digits.subrange(0, index - start + 1);
        proof {
            assert(next.drop_last() =~= seen);
            assert(next.last() == byte);
        }
        if !(DIGIT_ZERO <= byte && byte <= DIGIT_NINE) {
            assert(!is_digit(digits[index - start]));
            return None;
        }
        proof {
            assert(all_digits(next)) by {
                assert forall|i: int| 0 <= i < next.len() implies is_digit(#[trigger] next[i]) by {
                    if i < seen.len() {
                        assert(seen[i] == next[i]);
                    }
                }
            }
        }
        let digit: u64 = (byte - DIGIT_ZERO) as u64;
        let widened: Option<u64> = match total.checked_mul(10) {
            Some(tenfold) => tenfold.checked_add(digit),
            None => None,
        };
        match widened {
            Some(value_so_far) => {
                total = value_so_far;
            },
            None => {
                proof {
                    assert(decimal_value(next) > u64::MAX);
                    if all_digits(digits) {
                        lemma_decimal_value_prefix(digits, index - start + 1);
                    }
                }
                return None;
            },
        }
        index = index + 1;
    }
    proof {
        assert(digits.subrange(0, index - start) =~= digits);
    }
    Some(total)
}

/// What the downloader keeps of a response before it reads the body.
#[derive(Clone, Debug, PartialEq, Eq)]
pub struct ResponseMeta {
    /// The status code.
    pub status: u16,
    /// The declared length of the body in bytes, when the response declares one.
    pub content_length: Option<u64>,
    /// The declared media type of the body, when the response declares one.
    pub content_type: Option<String>,
}

impl ResponseMeta {
    /// The characters of the content type, when there is one.
    pub open spec fn content_type_text(self) -> Option<Seq<char>> {
        self.content_type.deep_view()
    }

    /// The length a content-length header declares, when the header is there.
    pub open spec fn spec_content_length(header: Option<&[u8]>) -> Option<u64> {
        match header {
            Some(value) => spec_parse_content_length(value@),
            None => None,
        }
    }

    /// The text of a content-type header, when the header is there and is text.
    pub open spec fn spec_content_type(header: Option<&[u8]>) -> Option<Seq<char>> {
        match header {
            Some(value) => spec_header_text(value@),
            None => None,
        }
    }

    /// Derives the metadata from the status code and the raw values of the
    /// content-length and content-type headers, each absent when the response
    /// does not carry the header. A value that cannot be read counts as absent.
    pub fn from_headers(
        status: u16,
        content_length: Option<&[u8]>,
        content_type: Option<&[u8]>,
    ) -> (meta: ResponseMeta)
        ensures
            meta.status == status,
            meta.content_length == Self::spec_content_length(content_length),
            meta.content_type_text() == Self::spec_content_type(content_type),
    {
        let length: Option<u64> = match content_length {
            Some(value) => parse_content_length(value),
            None => None,
        };
        let media_type: Option<String> = match content_type {
            Some(value) => header_text(value),
            None => None,
        };
        ResponseMeta { status, content_length: length, content_type: media_type }
    }

    /// Tells whether the status lets the download go ahead.
    pub fn is_success(&self) -> (success: bool)
        ensures
            success == spec_is_success(self.status),
    {
        is_success(self.status)
    }
}

} // verus!
