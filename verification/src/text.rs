//! Text as it travels in requests: header values and UTF-8 bodies.

use hyper::header::HeaderValue;
use vstd::prelude::*;
use vstd::utf8::*;

verus! {

/// The bytes that a header value may hold and still read as text: the
/// horizontal tab and the printable ASCII range, space included.
pub open spec fn is_text_byte(b: u8) -> bool {
    b == 9 || (32 <= b && b < 127)
}

/// True when every byte of `raw` is a text byte.
pub open spec fn is_text(raw: Seq<u8>) -> bool {
    forall|i: int| 0 <= i < raw.len() ==> is_text_byte(#[trigger] raw[i])
}

/// The characters that the bytes of a text header value stand for, one per byte.
pub open spec fn text_of(raw: Seq<u8>) -> Seq<char> {
    Seq::new(raw.len(), |i: int| raw[i] as char)
}

/// What a header value reads as: its characters where it is text, nothing otherwise.
pub open spec fn header_text_of(raw: Seq<u8>) -> Option<Seq<char>> {
    if is_text(raw) {
        Some(text_of(raw))
    } else {
        None
    }
}

/// The bytes of an optional byte string.
pub open spec fn bytes_view(bytes: Option<Vec<u8>>) -> Option<Seq<u8>> {
    match bytes {
        Some(bytes) => Some(bytes@),
        None => None,
    }
}

/// What a byte string decodes to: its characters where it is well-formed
/// UTF-8, nothing otherwise.
pub open spec fn utf8_text_of(bytes: Seq<u8>) -> Option<Seq<char>> {
    if valid_utf8(bytes) {
        Some(decode_utf8(bytes))
    } else {
        None
    }
}

/// Reads a header value as text with hyper's `HeaderValue::from_bytes` and
/// `HeaderValue::to_str`.
///
/// Trusted: the two calls together give a string exactly when each byte is a
/// tab or lies in `32..127`, and the string's bytes are then the given ones.
#[verifier::external_body]
fn header_to_string(raw: &[u8]) -> (text: Option<String>)
    ensures
        text is Some <==> is_text(raw@),
        text matches Some(s) ==> encode_utf8(s@) == raw@,
{
    match HeaderValue::from_bytes(raw) {
        Ok(value) => match value.to_str() {
            Ok(text) => Some(text.to_string()),
            Err(_) => None,
        },
        Err(_) => None,
    }
}

/// The bytes of a text header value are the UTF-8 encoding of its characters.
pub proof fn lemma_text_encodes_to_its_bytes(raw: Seq<u8>)
    requires
        is_text(raw),
    ensures
        encode_utf8(text_of(raw)) == raw,
{
    let chars = text_of(raw);
    assert forall|i: int| 0 <= i < chars.len() implies '\0' <= #[trigger] chars[i] <= '\u{7f}' by {
        assert(is_text_byte(raw[i]));
    }
    is_ascii_chars_encode_utf8(chars);
    assert forall|i: int| 0 <= i < raw.len() implies encode_utf8(chars)[i] == raw[i] by {
        assert(is_text_byte(raw[i]));
        assert(chars[i] as u8 == raw[i]);
    }
    assert(encode_utf8(chars) =~= raw);
}

/// Reads a header value as text.
pub fn header_text(raw: &[u8]) -> (text: Option<String>)
    ensures
        text.deep_view() == header_text_of(raw@),
{
    let text = header_to_string(raw);
    proof {
        if let Some(s) = &text {
            lemma_text_encodes_to_its_bytes(raw@);
            encode_utf8_decode_utf8(s@);
            encode_utf8_decode_utf8(text_of(raw@));
        }
    }
    text
}

/// Decodes bytes with `String::from_utf8`.
///
/// Trusted: the call gives a string exactly when the bytes are well-formed
/// UTF-8, and the string's bytes are then the given ones.
#[verifier::external_body]
fn string_from_utf8(bytes: Vec<u8>) -> (text: Option<String>)
    ensures
        text is Some <==> valid_utf8(bytes@),
        text matches Some(s) ==> encode_utf8(s@) == bytes@,
{
    match String::from_utf8(bytes) {
        Ok(text) => Some(text),
        Err(_) => None,
    }
}

/// Decodes a request body as UTF-8 text.
pub fn decode_text(bytes: Vec<u8>) -> (text: Option<String>)
    ensures
        text.deep_view() == utf8_text_of(bytes@),
{
    let text = string_from_utf8(bytes);
    proof {
        if let Some(s) = &text {
            encode_utf8_decode_utf8(s@);
        }
    }
    text
}

/// Tells whether two strings hold the same characters.
pub fn same_text(a: &str, b: &str) -> (same: bool)
    ensures
        same == (a@ == b@),
{
    let x = a.as_bytes();
    let y = b.as_bytes();
    proof {
        encode_utf8_decode_utf8(a@);
        encode_utf8_decode_utf8(b@);
    }
    if x.len() != y.len() {
        return false;
    }
    let mut i: usize = 0;
    while i < x.len()
        invariant
            i <= x.len(),
            x.len() == y.len(),
            x@ == encode_utf8(a@),
            y@ == encode_utf8(b@),
            forall|j: int| 0 <= j < i ==> x@[j] == y@[j],
        decreases x.len() - i,
    {
        if x[i] != y[i] {
            return false;
        }
        i += 1;
    }
    assert(x@ =~= y@);
    true
}

} // verus!
