//! Request headers that the server reads.

use axum::http::HeaderValue;
use vstd::prelude::*;

verus! {

/// Whether a byte of a header value is text: visible ASCII, a space or a tab.
pub open spec fn is_text_byte(byte: u8) -> bool {
    32 <= byte < 127 || byte == 9
}

/// The text of a header value, where all its bytes are text.
pub open spec fn header_text(value: Seq<u8>) -> Option<Seq<char>> {
    if forall|i: int| 0 <= i < value.len() ==> is_text_byte(#[trigger] value[i]) {
        Some(Seq::new(value.len(), |i: int| value[i] as char))
    } else {
        None
    }
}

/// Reads a header value as text.
///
/// Calls `HeaderValue::to_str` on the value that `HeaderValue::from_bytes` makes of the bytes.
/// `to_str` gives the bytes back as text where each is visible ASCII, a space or a tab, and fails
/// otherwise; the bytes that `from_bytes` turns away, control characters, are none of these.
#[verifier::external_body]
pub(crate) fn to_str(value: &[u8]) -> (text: Option<String>)
    ensures
        text.deep_view() == header_text(value@),
{
    let header = HeaderValue::from_bytes(value).ok()?;
    let text = header.to_str().ok()?;
    Some(text.to_owned())
}

/// A header is missing, or its value is not text.
#[derive(Debug, Clone, Copy, PartialEq, Eq, Structural)]
pub struct InvalidHeader;

/// What a header that is given as these values says: the text of the first one.
pub open spec fn first_text(values: Seq<Vec<u8>>) -> Option<Seq<char>> {
    if values.len() == 0 {
        None
    } else {
        header_text(values[0]@)
    }
}

fn decode_first(values: &[Vec<u8>]) -> (text: Option<String>)
    ensures
        text.deep_view() == first_text(values@),
{
    if values.len() == 0 {
        None
    } else {
        to_str(values[0].as_slice())
    }
}

/// The country that a request comes from.
pub struct CloudflareIpCountryHeader(String);

impl DeepView for CloudflareIpCountryHeader {
    type V = Seq<char>;

    closed spec fn deep_view(&self) -> Seq<char> {
        self.0@
    }
}

impl CloudflareIpCountryHeader {
    /// The header's name.
    pub fn name() -> (name: &'static str)
        ensures
            name@ == "cf-ipcountry"@,
    {
        "cf-ipcountry"
    }

    /// Reads the header from the values that a request gives it. The first one counts.
    pub fn decode(values: &[Vec<u8>]) -> (header: Result<Self, InvalidHeader>)
        ensures
            match first_text(values@) {
                Some(text) => header matches Ok(h) && h.deep_view() == text,
                None => header == Err::<Self, InvalidHeader>(InvalidHeader),
            },
    {
        match decode_first(values) {
            Some(text) => Ok(CloudflareIpCountryHeader(text)),
            None => Err(InvalidHeader),
        }
    }

    /// The country code, as the request gave it.
    pub fn to_string(&self) -> (text: String)
        ensures
            text@ == self.deep_view(),
    {
        self.0.clone()
    }
}

/// The installation that a request comes from.
pub struct SystemIdHeader(String);

impl DeepView for SystemIdHeader {
    type V = Seq<char>;

    closed spec fn deep_view(&self) -> Seq<char> {
        self.0@
    }
}

impl SystemIdHeader {
    /// The header's name.
    pub fn name() -> (name: &'static str)
        ensures
            name@ == "x-zed-system-id"@,
    {
        "x-zed-system-id"
    }

    /// Reads the header from the values that a request gives it. The first one counts.
    pub fn decode(values: &[Vec<u8>]) -> (header: Result<Self, InvalidHeader>)
        ensures
            match first_text(values@) {
                Some(text) => header matches Ok(h) && h.deep_view() == text,
                None => header == Err::<Self, InvalidHeader>(InvalidHeader),
            },
    {
        match decode_first(values) {
            Some(text) => Ok(SystemIdHeader(text)),
            None => Err(InvalidHeader),
        }
    }

    /// The identifier, as the request gave it.
    pub fn to_string(&self) -> (text: String)
        ensures
            text@ == self.deep_view(),
    {
        self.0.clone()
    }
}

/// Whether the bytes of a header value spell `text`, in visible ASCII, spaces and tabs.
pub open spec fn spells(value: Seq<u8>, text: Seq<char>) -> bool {
    &&& value.len() == text.len()
    &&& forall|i: int|
        0 <= i < value.len() ==> (32 <= #[trigger] value[i] < 127 || value[i] == 9) && text[i] as u32
            == value[i] as u32
}

proof fn lemma_byte_spells_char(byte: u8, c: char)
    requires
        byte < 128,
    ensures
        c as u32 == byte as u32 <==> c == byte as char,
{
}

/// A header value has a text exactly where its bytes spell that text.
pub proof fn a_header_value_spells_its_text(value: Seq<u8>, text: Seq<char>)
    ensures
        header_text(value) == Some(text) <==> spells(value, text),
{
    if header_text(value) == Some(text) {
        assert forall|i: int| 0 <= i < value.len() implies (32 <= #[trigger] value[i] < 127
            || value[i] == 9) && text[i] as u32 == value[i] as u32 by {
            assert(is_text_byte(value[i]));
            lemma_byte_spells_char(value[i], text[i]);
        }
    }
    if spells(value, text) {
        assert forall|i: int| 0 <= i < value.len() implies is_text_byte(#[trigger] value[i]) && text[i]
            == value[i] as char by {
            lemma_byte_spells_char(value[i], text[i]);
        }
        assert(header_text(value)->0 =~= text);
    }
}

/// A header says what its first value spells, whatever other values it has, and nothing where it
/// has no value or the first one spells nothing.
pub proof fn a_header_says_what_its_first_value_spells(values: Seq<Vec<u8>>, text: Seq<char>)
    ensures
        first_text(values) == Some(text) <==> values.len() > 0 && spells(values[0]@, text),
{
    if values.len() > 0 {
        a_header_value_spells_its_text(values[0]@, text);
    }
}

} // verus!
