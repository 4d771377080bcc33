use vstd::prelude::*;
use vstd::utf8::{char_is_scalar, encode_scalar, encode_utf8, is_scalar};

verus! {

/// The value of a header as the http crate holds it. Nothing of its
/// inside is known here.
#[verifier::external_type_specification]
#[verifier::external_body]
pub struct ExHeaderValue(reqwest::header::HeaderValue);

/// The error with which the http crate turns a text down as a header value.
#[verifier::external_type_specification]
#[verifier::external_body]
pub struct ExInvalidHeaderValue(reqwest::header::InvalidHeaderValue);

/// A byte that may stand in the value of an HTTP header: the tab, and
/// everything from the space upwards but the delete character.
pub open spec fn header_byte_ok(byte: u8) -> bool {
    byte >= 32 && byte != 127 || byte == 9
}

/// A text that may be sent as the value of an HTTP header: every byte of
/// its UTF-8 form may stand there.
pub open spec fn header_text_ok(text: Seq<char>) -> bool {
    forall|i: int|
        0 <= i < encode_utf8(text).len() ==> header_byte_ok(#[trigger] encode_utf8(text)[i])
}

/// Calls `HeaderValue::from_str` of the http crate, which reqwest hands on
/// under `reqwest::header`.
///
/// Taken on trust, from the code of http 0.2: the call walks over the bytes
/// of `text` and fails at the first that is below 32 and no tab, or is 127;
/// where it meets none, it succeeds. So the tab passes, and so does every
/// character beyond ASCII, although the summary above that code speaks of
/// visible ASCII only. Nothing is claimed of the value made.
#[verifier::external_body]
pub(crate) fn header_value_from_str(text: &str) -> (made: Result<
    reqwest::header::HeaderValue,
    reqwest::header::InvalidHeaderValue,
>)
    ensures
        made is Ok <==> header_text_ok(text@),
{
    reqwest::header::HeaderValue::from_str(text)
}

/// A character that may stand in the value of an HTTP header: the tab, and
/// everything from the space upwards but the delete character.
pub open spec fn header_char_ok(c: char) -> bool {
    c as u32 >= 32 && c as u32 != 127 || c as u32 == 9
}

/// The bytes of one encoded character may all stand in a header value
/// exactly when the character itself may.
proof fn lemma_scalar_bytes_ok(scalar: u32)
    requires
        is_scalar(scalar),
    ensures
        (forall|i: int|
            0 <= i < encode_scalar(scalar).len() ==> header_byte_ok(
                #[trigger] encode_scalar(scalar)[i],
            )) <==> (scalar >= 32 && scalar != 127 || scalar == 9),
{
    let bytes = encode_scalar(scalar);
    if scalar <= 0x7F {
        assert((scalar & 0x7F) as u8 == scalar) by (bit_vector)
            requires
                scalar <= 0x7F,
        ;
        assert(bytes[0] == scalar);
    } else {
        assert(0xC0u8 | ((scalar >> 6) & 0x1F) as u8 >= 0x80) by (bit_vector);
        assert(0xE0u8 | ((scalar >> 12) & 0x0F) as u8 >= 0x80) by (bit_vector);
        assert(0xF0u8 | ((scalar >> 18) & 0x7) as u8 >= 0x80) by (bit_vector);
        assert(0x80u8 | (scalar & 0x3F) as u8 >= 0x80) by (bit_vector);
        assert(0x80u8 | ((scalar >> 6) & 0x3F) as u8 >= 0x80) by (bit_vector);
        assert(0x80u8 | ((scalar >> 12) & 0x3F) as u8 >= 0x80) by (bit_vector);
        assert forall|i: int| 0 <= i < bytes.len() implies header_byte_ok(#[trigger] bytes[i]) by {
            assert(bytes[i] >= 0x80);
        }
    }
}

/// A text may be sent as a header value exactly when each of its
/// characters may: a character beyond ASCII takes only bytes from 128 upwards.
pub proof fn lemma_header_text_by_chars(text: Seq<char>)
    ensures
        header_text_ok(text) <==> forall|i: int|
            0 <= i < text.len() ==> header_char_ok(#[trigger] text[i]),
    decreases text.len(),
{
    if text.len() > 0 {
        char_is_scalar(text[0]);
        let head = encode_scalar(text[0] as u32);
        let rest = text.drop_first();
        let tail = encode_utf8(rest);
        let whole = encode_utf8(text);
        assert(whole == head + tail);
        lemma_scalar_bytes_ok(text[0] as u32);
        lemma_header_text_by_chars(rest);
        if header_text_ok(text) {
            assert forall|i: int| 0 <= i < head.len() implies header_byte_ok(#[trigger] head[i]) by {
                assert(whole[i] == head[i]);
            }
            assert forall|i: int| 0 <= i < tail.len() implies header_byte_ok(#[trigger] tail[i]) by {
                assert(whole[head.len() + i] == tail[i]);
            }
            assert forall|i: int| 0 <= i < text.len() implies header_char_ok(#[trigger] text[i]) by {
                if i > 0 {
                    assert(text[i] == rest[i - 1]);
                }
            }
        }
        if forall|i: int| 0 <= i < text.len() ==> header_char_ok(#[trigger] text[i]) {
            assert(header_char_ok(text[0]));
            assert forall|i: int| 0 <= i < rest.len() implies header_char_ok(#[trigger] rest[i]) by {
                assert(rest[i] == text[i + 1]);
            }
            assert forall|i: int| 0 <= i < whole.len() implies header_byte_ok(#[trigger] whole[i]) by {
                if i < head.len() {
                    assert(whole[i] == head[i]);
                } else {
                    assert(whole[i] == tail[i - head.len()]);
                }
            }
        }
    }
}

} // verus!
