//! HTTP notions that the client and the servers share: header values, status codes, URLs, session
//! identifiers and media types.
use vstd::prelude::*;
use vstd::utf8::encode_utf8;

verus! {

/// Name of the header that carries a session identifier.
pub const SESSION_HEADER: &'static str = "mcp-session-id";

/// Media type of a server-sent event stream.
pub const EVENT_STREAM: &'static str = "text/event-stream";

/// Media type of a JSON body.
pub const JSON_CONTENT: &'static str = "application/json";

pub const OK: u16 = 200;

pub const NO_CONTENT: u16 = 204;

pub const BAD_REQUEST: u16 = 400;

pub const UNAUTHORIZED: u16 = 401;

pub const NOT_ACCEPTABLE: u16 = 406;

pub const INTERNAL_SERVER_ERROR: u16 = 500;

/// Whether a status code reports success.
pub open spec fn success(status: u16) -> bool {
    200 <= status < 300
}

/// Whether a status code reports success.
pub fn is_success(status: u16) -> (r: bool)
    ensures
        r == success(status),
{
    200 <= status && status < 300
}

/// A byte that may stand in a header value that is read as text.
pub open spec fn visible_byte(b: u8) -> bool {
    (32 <= b && b < 127) || b == 9
}

/// A byte that may stand in a header value.
pub open spec fn header_byte(b: u8) -> bool {
    (32 <= b && b != 127) || b == 9
}

/// The text of a header value, where all its bytes are visible ASCII characters or tabs.
pub open spec fn header_text_of(bytes: Seq<u8>) -> Option<Seq<char>> {
    if forall|i: int| 0 <= i < bytes.len() ==> visible_byte(#[trigger] bytes[i]) {
        Some(Seq::new(bytes.len(), |i: int| bytes[i] as char))
    } else {
        None
    }
}

/// Whether a text may be sent as a header value.
pub open spec fn fits_header(text: Seq<char>) -> bool {
    forall|i: int| 0 <= i < encode_utf8(text).len() ==> header_byte(#[trigger] encode_utf8(text)[i])
}

/// The text of an optional header; nothing where it is absent or not text.
pub open spec fn optional_header_text(header: Option<axum::http::HeaderValue>) -> Option<Seq<char>> {
    match header {
        Some(value) => header_text_of(header_bytes(value)),
        None => None,
    }
}

/// `axum::http::HeaderValue`, the value of an HTTP header.
#[verifier::external_type_specification]
#[verifier::external_body]
pub struct ExHeaderValue(axum::http::HeaderValue);

/// The bytes of a header value.
pub uninterp spec fn header_bytes(value: axum::http::HeaderValue) -> Seq<u8>;

/// How a status code is printed, with its reason phrase.
pub uninterp spec fn status_line(status: u16) -> Seq<char>;

/// The normal form that `reqwest::Url::parse` gives a URL; nothing where the text is no URL.
pub uninterp spec fn parsed_url(text: Seq<char>) -> Option<Seq<char>>;

/// `HeaderValue::to_str`: the text of a header value, an error where a byte is neither a visible
/// ASCII character nor a tab.
#[verifier::external_body]
pub(crate) fn header_text(value: &axum::http::HeaderValue) -> (r: Option<String>)
    ensures
        match r {
            Some(text) => header_text_of(header_bytes(*value)) == Some(text@),
            None => header_text_of(header_bytes(*value)) is None,
        },
{
    value.to_str().ok().map(str::to_owned)
}

/// `HeaderValue::from_str`: the header value with the bytes of a text, an error with a fixed text
/// where one of them may not stand in a header value.
#[verifier::external_body]
pub(crate) fn header_value(text: &str) -> (r: Result<axum::http::HeaderValue, String>)
    ensures
        match r {
            Ok(value) => fits_header(text@) && header_bytes(value) == encode_utf8(text@),
            Err(error) => !fits_header(text@) && error@ == "failed to parse header value"@,
        },
{
    axum::http::HeaderValue::from_str(text).map_err(|error| error.to_string())
}

/// `StatusCode::to_string`: the number of a status code and its reason phrase.
#[verifier::external_body]
pub(crate) fn status_text(status: u16) -> (r: String)
    requires
        100 <= status <= 999,
    ensures
        r@ == status_line(status),
{
    axum::http::StatusCode::from_u16(status).unwrap().to_string()
}

/// `reqwest::Url::parse`: the normal form of the URL that a text denotes, an error where it denotes
/// none.
#[verifier::external_body]
pub(crate) fn parse_url(text: &str) -> (r: Option<String>)
    ensures
        match r {
            Some(url) => parsed_url(text@) == Some(url@),
            None => parsed_url(text@) is None,
        },
{
    reqwest::Url::parse(text).ok().map(String::from)
}

/// A lower-case hexadecimal digit.
pub open spec fn hex_char(c: char) -> bool {
    '0' <= c <= '9' || 'a' <= c <= 'f'
}

/// The text of a random UUID: 32 hexadecimal digits in five groups, version 4, variant 1.
pub open spec fn uuid_v4_text(text: Seq<char>) -> bool {
    &&& text.len() == 36
    &&& forall|i: int|
        0 <= i < 36 ==> if i == 8 || i == 13 || i == 18 || i == 23 {
            #[trigger] text[i] == '-'
        } else {
            hex_char(text[i])
        }
    &&& text[14] == '4'
    &&& (text[19] == '8' || text[19] == '9' || text[19] == 'a' || text[19] == 'b')
}

/// `Uuid::new_v4` as text. Which UUID comes is left to chance: only its form is stated. The call
/// panics where the operating system supplies no random bytes.
#[verifier::external_body]
pub(crate) fn random_uuid() -> (r: String)
    ensures
        uuid_v4_text(r@),
{
    uuid::Uuid::new_v4().to_string()
}

/// A status code reports success exactly where its first digit is 2.
pub proof fn law_success_is_the_second_hundred(status: u16)
    ensures
        success(status) <==> status / 100 == 2,
{
}

/// A header is read as text, byte by byte, exactly where all its bytes are tabs or the characters
/// from the space to the tilde; an absent header has no text.
pub proof fn law_header_text(bytes: Seq<u8>, header: axum::http::HeaderValue)
    ensures
        header_text_of(bytes) is Some <==> forall|i: int|
            0 <= i < bytes.len() ==> (#[trigger] bytes[i]) == 9 || 32 <= bytes[i] <= 126,
        header_text_of(bytes) matches Some(text) ==> {
            &&& text.len() == bytes.len()
            &&& forall|i: int|
                0 <= i < text.len() ==> (#[trigger] text[i]) as int == bytes[i] as int
        },
        optional_header_text(None) is None,
        optional_header_text(Some(header)) == header_text_of(header_bytes(header)),
{
}

/// A text can be sent as a header exactly where its bytes are tabs or no control characters.
pub proof fn law_sendable_text(text: Seq<char>)
    ensures
        fits_header(text) <==> forall|i: int|
            0 <= i < encode_utf8(text).len() ==> (#[trigger] encode_utf8(text)[i]) == 9 || (
            encode_utf8(text)[i] >= 32 && encode_utf8(text)[i] != 127),
{
}

/// The names and numbers that go over the wire.
pub proof fn law_names_on_the_wire()
    ensures
        SESSION_HEADER@ == "mcp-session-id"@,
        EVENT_STREAM@ == "text/event-stream"@,
        JSON_CONTENT@ == "application/json"@,
        OK == 200,
        NO_CONTENT == 204,
        BAD_REQUEST == 400,
        UNAUTHORIZED == 401,
        NOT_ACCEPTABLE == 406,
        INTERNAL_SERVER_ERROR == 500,
{
}

/// The text of a random UUID has five groups of hexadecimal digits, of 8, 4, 4, 4 and 12, with hyphens
/// between them; the third group begins with its version and the fourth with its variant.
pub proof fn law_uuid_text(text: Seq<char>)
    requires
        uuid_v4_text(text),
    ensures
        text.len() == 36,
        text[8] == '-' && text[13] == '-' && text[18] == '-' && text[23] == '-',
        forall|i: int|
            0 <= i < 36 && i != 8 && i != 13 && i != 18 && i != 23 ==> ('0' <= #[trigger] text[i]
                <= '9' || 'a' <= text[i] <= 'f'),
        text[14] == '4',
        text[19] == '8' || text[19] == '9' || text[19] == 'a' || text[19] == 'b',
{
    assert forall|i: int| 0 <= i < 36 && i != 8 && i != 13 && i != 18 && i != 23 implies ('0'
        <= #[trigger] text[i] <= '9' || 'a' <= text[i] <= 'f') by {
        assert(hex_char(text[i]));
    }
}

} // verus!
