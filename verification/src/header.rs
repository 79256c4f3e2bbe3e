//! The header collection of `reqwest::header`, as the rest of the crate sees it.
//!
//! Nothing in this file is proved: each contract restates what the source of
//! the `http` crate (which `reqwest::header` re-exports) shows of one function.

use vstd::prelude::*;
use vstd::utf8::encode_utf8;

verus! {

#[verifier::external_type_specification]
#[verifier::external_body]
#[verifier::reject_recursive_types(T)]
pub struct ExHeaderMap<T>(reqwest::header::HeaderMap<T>);

#[verifier::external_type_specification]
#[verifier::external_body]
pub struct ExHeaderValue(reqwest::header::HeaderValue);

/// The bytes that a header value holds.
pub uninterp spec fn header_value_bytes(value: reqwest::header::HeaderValue) -> Seq<u8>;

/// What a header map holds: under each header name, in lower case, the bytes
/// of the first value stored for it.
pub uninterp spec fn header_entries(map: reqwest::header::HeaderMap) -> Map<Seq<char>, Seq<u8>>;

/// A byte that `HeaderValue::from_str` accepts: anything from 32 up except
/// 127, and the tab.
pub open spec fn header_byte_accepted(b: u8) -> bool {
    (b >= 32 && b != 127) || b == 9
}

/// A byte that `HeaderValue::to_str` accepts: 32 to 126, and the tab.
pub open spec fn header_byte_visible(b: u8) -> bool {
    (b >= 32 && b < 127) || b == 9
}

/// Every byte of `bytes` is accepted in a header value.
pub open spec fn header_bytes_accepted(bytes: Seq<u8>) -> bool {
    forall|i: int| 0 <= i < bytes.len() ==> header_byte_accepted(#[trigger] bytes[i])
}

/// Every byte of `bytes` is visible ASCII or a tab.
pub open spec fn header_bytes_visible(bytes: Seq<u8>) -> bool {
    forall|i: int| 0 <= i < bytes.len() ==> header_byte_visible(#[trigger] bytes[i])
}

/// The entries of a map that holds nothing.
pub open spec fn no_headers() -> Map<Seq<char>, Seq<u8>> {
    Map::empty()
}

/// The header names this crate reads or writes.
pub open spec fn known_header_name(name: Seq<char>) -> bool {
    name == "if-none-match"@ || name == "accept"@ || name == "etag"@ || name == "link"@
}

/// `HeaderMap::new`: an empty map.
#[verifier::external_body]
pub(crate) fn header_map_new() -> (headers: reqwest::header::HeaderMap)
    ensures
        header_entries(headers) == no_headers(),
{
    reqwest::header::HeaderMap::new()
}

/// `HeaderValue::from_str`: succeeds exactly when every byte of `text` is
/// accepted, and the value then holds the bytes of `text`.
#[verifier::external_body]
pub(crate) fn header_value_from_str(text: &str) -> (value: Option<reqwest::header::HeaderValue>)
    ensures
        value is Some <==> header_bytes_accepted(encode_utf8(text@)),
        value matches Some(v) ==> header_value_bytes(v) == encode_utf8(text@),
{
    reqwest::header::HeaderValue::from_str(text).ok()
}

/// `HeaderValue::to_str`: succeeds exactly when every byte of the value is
/// visible ASCII or a tab, and the text then has the bytes of the value.
#[verifier::external_body]
pub(crate) fn header_value_to_str(value: &reqwest::header::HeaderValue) -> (text: Option<&str>)
    ensures
        text is Some <==> header_bytes_visible(header_value_bytes(*value)),
        text matches Some(s) ==> encode_utf8(s@) == header_value_bytes(*value),
{
    value.to_str().ok()
}

/// `HeaderMap::try_insert` under one of the known names: where it succeeds,
/// `value` has replaced whatever was stored under `name`; where it fails
/// (the map has reached its greatest size) the map is as it was. A map that
/// holds nothing always has room.
#[verifier::external_body]
pub(crate) fn header_map_put(
    map: &mut reqwest::header::HeaderMap,
    name: &'static str,
    value: reqwest::header::HeaderValue,
) -> (stored: bool)
    requires
        known_header_name(name@),
    ensures
        stored ==> header_entries(*final(map)) == header_entries(*old(map)).insert(
            name@,
            header_value_bytes(value),
        ),
        !stored ==> header_entries(*final(map)) == header_entries(*old(map)),
        header_entries(*old(map)) == no_headers() ==> stored,
{
    map.try_insert(name, value).is_ok()
}

/// `HeaderMap::get` under one of the known names: the first value stored
/// under `name`, if there is one.
#[verifier::external_body]
pub(crate) fn header_map_get<'a>(map: &'a reqwest::header::HeaderMap, name: &str) -> (value: Option<
    &'a reqwest::header::HeaderValue,
>)
    requires
        known_header_name(name@),
    ensures
        value is Some <==> header_entries(*map).contains_key(name@),
        value matches Some(v) ==> header_entries(*map)[name@] == header_value_bytes(*v),
{
    map.get(name)
}

} // verus!
