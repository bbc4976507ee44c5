//! The authentication token: a text that must be fit to stand as the value of
//! an HTTP header.

use vstd::prelude::*;
use vstd::utf8::{
    encode_scalar, encode_utf8, has_width_1_encoding, is_scalar, last_continuation_byte,
    leading_byte_width_1, leading_byte_width_2, leading_byte_width_3, leading_byte_width_4,
    second_last_continuation_byte, third_last_continuation_byte,
};

verus! {

/// A byte that may stand in a header value: a tab, or anything from the
/// space on but the delete character.
pub open spec fn header_byte(b: u8) -> bool {
    (b >= 32 && b != 127) || b == 9
}

/// Bytes that may stand as a header value.
pub open spec fn header_bytes(bytes: Seq<u8>) -> bool {
    forall|i: int| 0 <= i < bytes.len() ==> header_byte(#[trigger] bytes[i])
}

/// A character that may stand in a token: a tab, or anything from the space
/// on but the delete character. No other control character may; a line
/// break may not.
pub open spec fn token_char(c: char) -> bool {
    (c as u32 >= 32 && c as u32 != 127) || c as u32 == 9
}

/// A text that may stand as a token.
pub open spec fn is_token(text: Seq<char>) -> bool {
    forall|i: int| 0 <= i < text.len() ==> token_char(#[trigger] text[i])
}

// What follows is believed of `http`, not proved.

/// `http::HeaderValue`. Nothing is read from it.
#[verifier::external_type_specification]
#[verifier::external_body]
pub struct ExHeaderValue(http::HeaderValue);

/// `http::header::InvalidHeaderValue`. Nothing is read from it.
#[verifier::external_type_specification]
#[verifier::external_body]
pub struct ExInvalidHeaderValue(http::header::InvalidHeaderValue);

/// `http::HeaderValue::from_str`. It gives a value exactly where every byte
/// of the text, in UTF-8, is a tab or at least 32 and not 127.
#[verifier::external_body]
fn header_value(text: &str) -> (r: Result<http::HeaderValue, http::header::InvalidHeaderValue>)
    ensures
        r is Ok <==> header_bytes(encode_utf8(text@)),
{
    http::HeaderValue::from_str(text)
}

// From here on everything is proved again.

/// The bytes of one character may stand in a header value exactly where the
/// character may stand in a token.
proof fn lemma_scalar_bytes(c: char)
    ensures
        header_bytes(encode_scalar(c as u32)) <==> token_char(c),
{
    let s = c as u32;
    assert(is_scalar(s));
    let bytes = encode_scalar(s);
    if has_width_1_encoding(s) {
        assert(leading_byte_width_1(s) == s) by (bit_vector)
            requires
                s <= 0x7F,
        ;
        assert(bytes[0] == s);
    } else {
        assert(leading_byte_width_2(s) >= 0x80) by (bit_vector);
        assert(leading_byte_width_3(s) >= 0x80) by (bit_vector);
        assert(leading_byte_width_4(s) >= 0x80) by (bit_vector);
        assert(last_continuation_byte(s) >= 0x80) by (bit_vector);
        assert(second_last_continuation_byte(s) >= 0x80) by (bit_vector);
        assert(third_last_continuation_byte(s) >= 0x80) by (bit_vector);
    }
}

/// The UTF-8 bytes of a text may stand as a header value exactly where the
/// text may stand as a token.
pub proof fn lemma_token_bytes(text: Seq<char>)
    ensures
        header_bytes(encode_utf8(text)) <==> is_token(text),
    decreases text.len(),
{
    if text.len() > 0 {
        let head = encode_scalar(text[0] as u32);
        let tail = encode_utf8(text.drop_first());
        lemma_scalar_bytes(text[0]);
        lemma_token_bytes(text.drop_first());
        assert(encode_utf8(text) == head + tail);
        if header_bytes(head + tail) {
            assert forall|i: int| 0 <= i < head.len() implies header_byte(#[trigger] head[i]) by {
                assert((head + tail)[i] == head[i]);
            }
            assert forall|i: int| 0 <= i < tail.len() implies header_byte(#[trigger] tail[i]) by {
                assert((head + tail)[head.len() + i] == tail[i]);
            }
            assert forall|i: int| 0 <= i < text.len() implies token_char(#[trigger] text[i]) by {
                if i > 0 {
                    assert(text.drop_first()[i - 1] == text[i]);
                }
            }
        }
        if is_token(text) {
            assert(token_char(text[0]));
            assert forall|i: int| 0 <= i < text.drop_first().len() implies token_char(
                #[trigger] text.drop_first()[i],
            ) by {
                assert(text.drop_first()[i] == text[i + 1]);
            }
            assert forall|i: int| 0 <= i < (head + tail).len() implies header_byte(
                #[trigger] (head + tail)[i],
            ) by {
                if i < head.len() {
                    assert((head + tail)[i] == head[i]);
                } else {
                    assert((head + tail)[i] == tail[i - head.len()]);
                }
            }
        }
    }
}

/// Whether `text` may stand as a token.
pub fn check_token(text: &str) -> (ok: bool)
    ensures
        ok == is_token(text@),
{
    proof {
        lemma_token_bytes(text@);
    }
    match header_value(text) {
        Ok(_) => true,
        Err(_) => false,
    }
}

/// A text with a control character other than the tab is no token; so a
/// text with a line break is none.
pub proof fn lemma_control_is_no_token(text: Seq<char>, c: char)
    requires
        text.contains(c),
        c as u32 != 9,
        (c as u32) < 32 || c as u32 == 127,
    ensures
        !is_token(text),
{
    let i = choose|i: int| 0 <= i < text.len() && text[i] == c;
    assert(!token_char(text[i]));
}

} // verus!
