//! Percent-encoding of text that goes into a URL.

use vstd::prelude::*;
use vstd::utf8::{decode_utf8, encode_utf8, encode_utf8_decode_utf8};

verus! {

/// Whether a byte stands for itself in percent-encoded text.
pub open spec fn is_unreserved(byte: u8) -> bool {
    ||| '0' as u8 <= byte <= '9' as u8
    ||| 'A' as u8 <= byte <= 'Z' as u8
    ||| 'a' as u8 <= byte <= 'z' as u8
    ||| byte == '-' as u8
    ||| byte == '.' as u8
    ||| byte == '_' as u8
    ||| byte == '~' as u8
}

/// The upper-case hexadecimal digit that stands for `d`.
pub open spec fn hex_digit(d: int) -> char
    recommends
        0 <= d < 16,
{
    if d < 10 {
        ('0' as u32 + d) as char
    } else {
        ('A' as u32 + (d - 10)) as char
    }
}

/// The percent-encoding of one byte.
pub open spec fn encoded_byte(byte: u8) -> Seq<char> {
    if is_unreserved(byte) {
        seq![byte as char]
    } else {
        seq!['%', hex_digit(byte as int / 16), hex_digit(byte as int % 16)]
    }
}

/// The percent-encoding of a row of bytes.
pub open spec fn encoded_bytes(bytes: Seq<u8>) -> Seq<char>
    decreases bytes.len(),
{
    if bytes.len() == 0 {
        Seq::empty()
    } else {
        encoded_byte(bytes.first()) + encoded_bytes(bytes.drop_first())
    }
}

/// The percent-encoding of a text: that of the bytes of its UTF-8 form.
pub open spec fn url_encoded(text: Seq<char>) -> Seq<char> {
    encoded_bytes(encode_utf8(text))
}

/// Percent-encodes `text`.
///
/// Calls `urlencoding::encode`, which keeps letters, digits and `-`, `.`, `_`, `~`, and writes
/// every other byte of the UTF-8 form as a percent sign and two upper-case hexadecimal digits.
#[verifier::external_body]
pub(crate) fn encode(text: &str) -> (encoded: String)
    ensures
        encoded@ == url_encoded(text@),
{
    urlencoding::encode(text).into_owned()
}

/// Whether percent-encoded text can hold this character.
pub open spec fn is_url_safe(c: char) -> bool {
    c == '%' || (c as u32) < 128 && is_unreserved(c as u8)
}

/// The value of a hexadecimal digit.
pub open spec fn hex_value(c: char) -> Option<int> {
    if '0' <= c <= '9' {
        Some(c as u32 - '0' as u32)
    } else if 'A' <= c <= 'F' {
        Some(c as u32 - 'A' as u32 + 10)
    } else if 'a' <= c <= 'f' {
        Some(c as u32 - 'a' as u32 + 10)
    } else {
        None
    }
}

/// The bytes that a value in a query string stands for: a plus sign for a space, a percent sign
/// and two hexadecimal digits for the byte of that value, and anything else for itself.
pub open spec fn query_value(text: Seq<char>) -> Seq<u8>
    decreases text.len(),
{
    if text.len() == 0 {
        Seq::empty()
    } else if text[0] == '+' {
        seq![' ' as u8] + query_value(text.skip(1))
    } else if text.len() >= 3 && text[0] == '%' && hex_value(text[1]) is Some && hex_value(
        text[2],
    ) is Some {
        seq![(16 * hex_value(text[1])->0 + hex_value(text[2])->0) as u8] + query_value(text.skip(3))
    } else {
        encode_utf8(seq![text[0]]) + query_value(text.skip(1))
    }
}

/// Percent-encoded text holds nothing that could end a query value, an address or an attribute:
/// only letters, digits, `-`, `.`, `_`, `~` and `%`.
pub proof fn encoded_text_is_url_safe(text: Seq<char>)
    ensures
        forall|i: int|
            0 <= i < url_encoded(text).len() ==> is_url_safe(#[trigger] url_encoded(text)[i]),
{
    lemma_encoded_bytes_url_safe(encode_utf8(text));
}

proof fn lemma_encoded_bytes_url_safe(bytes: Seq<u8>)
    ensures
        forall|i: int|
            0 <= i < encoded_bytes(bytes).len() ==> is_url_safe(#[trigger] encoded_bytes(bytes)[i]),
    decreases bytes.len(),
{
    if bytes.len() > 0 {
        lemma_encoded_bytes_url_safe(bytes.drop_first());
        let head = encoded_byte(bytes.first());
        let tail = encoded_bytes(bytes.drop_first());
        assert forall|i: int| 0 <= i < encoded_bytes(bytes).len() implies is_url_safe(
            #[trigger] encoded_bytes(bytes)[i],
        ) by {
            if i < head.len() {
                assert(encoded_bytes(bytes)[i] == head[i]);
            } else {
                assert(encoded_bytes(bytes)[i] == tail[i - head.len()]);
            }
        }
    }
}

/// A query value that was percent-encoded is read back as the text that it was made from.
pub proof fn encoded_text_is_read_back(text: Seq<char>)
    ensures
        query_value(url_encoded(text)) == encode_utf8(text),
{
    lemma_encoded_bytes_read_back(encode_utf8(text));
}

proof fn lemma_encoded_bytes_read_back(bytes: Seq<u8>)
    ensures
        query_value(encoded_bytes(bytes)) == bytes,
    decreases bytes.len(),
{
    if bytes.len() > 0 {
        let byte = bytes.first();
        let rest = encoded_bytes(bytes.drop_first());
        let text = encoded_bytes(bytes);
        lemma_encoded_bytes_read_back(bytes.drop_first());
        if is_unreserved(byte) {
            assert(text.skip(1) =~= rest);
            let single = seq![byte as char];
            vstd::utf8::is_ascii_chars_encode_utf8(single);
            assert(encode_utf8(single) =~= seq![byte]);
        } else {
            assert(text.skip(3) =~= rest);
            assert(hex_value(hex_digit(byte as int / 16)) == Some(byte as int / 16));
            assert(hex_value(hex_digit(byte as int % 16)) == Some(byte as int % 16));
        }
        assert(query_value(text) =~= bytes);
    }
}

/// Text of letters, digits, `-`, `.`, `_` and `~` stands for itself.
pub proof fn unreserved_text_is_kept(text: Seq<char>)
    requires
        forall|i: int| 0 <= i < text.len() ==> is_url_safe(#[trigger] text[i]) && text[i] != '%',
    ensures
        url_encoded(text) == text,
{
    let bytes = encode_utf8(text);
    assert(vstd::utf8::is_ascii_chars(text)) by {
        assert forall|i: int| 0 <= i < text.len() implies '\0' <= #[trigger] text[i] <= '\u{7f}' by {
            lemma_url_safe_is_ascii(text[i]);
        }
    }
    vstd::utf8::is_ascii_chars_encode_utf8(text);
    assert(bytes =~= Seq::new(text.len(), |i: int| text[i] as u8));
    lemma_unreserved_bytes_kept(bytes);
    assert forall|i: int| 0 <= i < bytes.len() implies is_unreserved(#[trigger] bytes[i]) by {
        assert(is_url_safe(text[i]));
    }
    assert forall|i: int| 0 <= i < text.len() implies url_encoded(text)[i] == text[i] by {
        lemma_url_safe_is_ascii(text[i]);
        assert(bytes[i] == text[i] as u8);
    }
    assert(url_encoded(text) =~= text);
}

proof fn lemma_url_safe_is_ascii(c: char)
    requires
        is_url_safe(c),
    ensures
        '\0' <= c <= '\u{7f}',
        (c as u8) as char == c,
{
}

proof fn lemma_unreserved_bytes_kept(bytes: Seq<u8>)
    ensures
        (forall|i: int| 0 <= i < bytes.len() ==> is_unreserved(#[trigger] bytes[i]))
            ==> encoded_bytes(bytes) =~= Seq::new(bytes.len(), |i: int| bytes[i] as char),
    decreases bytes.len(),
{
    if bytes.len() > 0 && (forall|i: int|
        0 <= i < bytes.len() ==> is_unreserved(#[trigger] bytes[i])) {
        let rest = bytes.drop_first();
        lemma_unreserved_bytes_kept(rest);
        assert forall|i: int| 0 <= i < rest.len() implies is_unreserved(#[trigger] rest[i]) by {
            assert(rest[i] == bytes[i + 1]);
        }
    }
}

/// Whether a query value is the percent-encoding of `text`: it is read back as that text, and holds
/// nothing that could end it.
pub open spec fn stands_for(value: Seq<char>, text: Seq<char>) -> bool {
    &&& decode_utf8(query_value(value)) == text
    &&& value == url_encoded(text)
    &&& forall|i: int| 0 <= i < value.len() ==> is_url_safe(#[trigger] value[i])
}

/// The percent-encoding of a text stands for that text, and for no other.
pub proof fn encoded_text_stands_for_the_text(text: Seq<char>)
    ensures
        stands_for(url_encoded(text), text),
        forall|other: Seq<char>| #[trigger] stands_for(url_encoded(text), other) ==> other == text,
{
    encoded_text_is_read_back(text);
    encode_utf8_decode_utf8(text);
    encoded_text_is_url_safe(text);
}

} // verus!
