//! HTTP headers, kept in the header map of the `http` crate.

use axum::http::{HeaderMap, HeaderValue};
use vstd::prelude::*;
use vstd::utf8::encode_utf8;

verus! {

/// The header map of the `http` crate.
#[verifier::external_type_specification]
#[verifier::external_body]
#[verifier::reject_recursive_types(T)]
pub struct ExHeaderMap<T>(axum::http::HeaderMap<T>);

/// A header value of the `http` crate.
#[verifier::external_type_specification]
#[verifier::external_body]
pub struct ExHeaderValue(axum::http::HeaderValue);

/// The bytes of a header value, and whether it is marked as sensitive.
pub uninterp spec fn header_value(value: HeaderValue) -> (Seq<u8>, bool);

/// What a header map holds: for each name, in small letters, its values in order.
pub uninterp spec fn header_contents(headers: HeaderMap) -> Map<Seq<char>, Seq<(Seq<u8>, bool)>>;

/// The contents of an empty header map.
pub open spec fn no_headers() -> Map<Seq<char>, Seq<(Seq<u8>, bool)>> {
    Map::empty()
}

/// The names that this library uses: not empty, not long, made of small letters, digits,
/// hyphens and underscores.
pub open spec fn is_header_name(name: Seq<char>) -> bool {
    &&& 0 < name.len() <= 64
    &&& forall|i: int|
        0 <= i < name.len() ==> {
            ||| 'a' <= #[trigger] name[i] <= 'z'
            ||| '0' <= name[i] <= '9'
            ||| name[i] == '-'
            ||| name[i] == '_'
        }
}

/// Tells whether a text may be the value of a header: no control characters but the tab.
pub open spec fn is_header_text(text: Seq<char>) -> bool {
    forall|i: int|
        0 <= i < text.len() ==> {
            ||| (' ' <= #[trigger] text[i] && text[i] != '\u{7f}')
            ||| text[i] == '\t'
        }
}

/// Tells whether a byte is a visible ASCII character, a space or a tab.
pub open spec fn is_visible_byte(byte: u8) -> bool {
    (32 <= byte < 127) || byte == 9
}

/// The text of a header value, where it is made of visible ASCII characters, spaces and tabs.
pub open spec fn visible_text(bytes: Seq<u8>) -> Option<Seq<char>> {
    if forall|i: int| 0 <= i < bytes.len() ==> is_visible_byte(#[trigger] bytes[i]) {
        Some(Seq::new(bytes.len(), |i: int| bytes[i] as char))
    } else {
        None
    }
}

/// Calls `HeaderMap::new`; claims that the map is empty.
#[verifier::external_body]
pub(crate) fn new_headers() -> (headers: HeaderMap)
    ensures
        header_contents(headers) == no_headers(),
{
    HeaderMap::new()
}

/// Calls `HeaderValue::from_str`; claims that it takes the texts without control characters
/// other than the tab, keeps their bytes, marks nothing as sensitive, and describes its error
/// in these words.
#[verifier::external_body]
pub(crate) fn new_header_value(text: &str) -> (result: Result<HeaderValue, String>)
    ensures
        match result {
            Ok(value) => is_header_text(text@) && header_value(value) == (
                encode_utf8(text@),
                false,
            ),
            Err(reason) => !is_header_text(text@) && reason@ == "failed to parse header value"@,
        },
{
    HeaderValue::from_str(text).map_err(|error| error.to_string())
}

/// Calls `HeaderValue::set_sensitive`; claims that it sets the mark and keeps the bytes.
#[verifier::external_body]
pub(crate) fn mark_sensitive(value: &mut HeaderValue, sensitive: bool)
    ensures
        header_value(*final(value)) == (header_value(*old(value)).0, sensitive),
{
    value.set_sensitive(sensitive)
}

/// Calls `HeaderMap::insert`; claims that the value takes the place of the values that the name
/// had, and that the other names keep theirs.
#[verifier::external_body]
pub(crate) fn insert_header(headers: &mut HeaderMap, name: &'static str, value: HeaderValue)
    requires
        is_header_name(name@),
        header_contents(*old(headers)).dom().finite(),
        header_contents(*old(headers)).dom().len() < 1000,
    ensures
        header_contents(*final(headers)) == header_contents(*old(headers)).insert(
            name@,
            seq![header_value(value)],
        ),
{
    headers.insert(name, value);
}

/// Calls `HeaderMap::get`; claims that it finds the first value of the name.
#[verifier::external_body]
pub(crate) fn get_header<'a>(headers: &'a HeaderMap, name: &str) -> (result: Option<&'a HeaderValue>)
    requires
        is_header_name(name@),
    ensures
        match result {
            Some(value) => {
                &&& header_contents(*headers).dom().contains(name@)
                &&& header_contents(*headers)[name@].len() > 0
                &&& header_contents(*headers)[name@][0] == header_value(*value)
            },
            None => !header_contents(*headers).dom().contains(name@),
        },
{
    headers.get(name)
}

/// Calls `HeaderValue::to_str`; claims that it gives the text of a value that is made of visible
/// ASCII characters, spaces and tabs, and of no other.
#[verifier::external_body]
pub(crate) fn header_text(value: &HeaderValue) -> (result: Option<&str>)
    ensures
        match result {
            Some(text) => visible_text(header_value(*value).0) == Some(text@),
            None => visible_text(header_value(*value).0) is None,
        },
{
    value.to_str().ok()
}

} // verus!
