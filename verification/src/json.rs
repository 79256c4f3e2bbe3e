//! JSON objects of `serde_json`, as the rest of the crate sees them.
//!
//! Nothing in this file is proved: each contract restates what the source of
//! `serde_json` shows of the one function that the body calls.

use vstd::prelude::*;

verus! {

#[verifier::external_type_specification]
#[verifier::external_body]
#[verifier::reject_recursive_types(K)]
#[verifier::reject_recursive_types(V)]
pub struct ExJsonMap<K, V>(serde_json::Map<K, V>);

#[verifier::external_type_specification]
#[verifier::external_body]
pub struct ExJsonValue(serde_json::Value);

/// What a JSON value holds, as far as this crate reads it.
pub enum JsonContent {
    /// A JSON string, by its characters.
    Text(Seq<char>),
    /// `true` or `false`.
    Flag(bool),
    /// An array, by the compact JSON text of each of its entries in order.
    Items(Seq<Seq<char>>),
    /// Any other JSON value.
    Other,
}

/// What a value holds.
pub uninterp spec fn json_value(value: serde_json::Value) -> JsonContent;

/// The compact JSON text of a value, as its `Display` writes it.
pub uninterp spec fn json_text(value: serde_json::Value) -> Seq<char>;

/// What a JSON object holds: under each key, what the value stored for it
/// holds.
pub uninterp spec fn json_members(object: serde_json::Map<String, serde_json::Value>) -> Map<
    Seq<char>,
    JsonContent,
>;

/// The members of the object that `serde_json::from_str` reads from `text`,
/// or `None` where it reads no object from it.
pub uninterp spec fn json_object_of(text: Seq<char>) -> Option<Map<Seq<char>, JsonContent>>;

/// The members of an object that holds nothing.
pub open spec fn no_members() -> Map<Seq<char>, JsonContent> {
    Map::empty()
}

/// The string stored under `key`, if a string is stored there.
pub open spec fn member_text(members: Map<Seq<char>, JsonContent>, key: Seq<char>) -> Option<
    Seq<char>,
> {
    if members.contains_key(key) {
        match members[key] {
            JsonContent::Text(text) => Some(text),
            _ => None,
        }
    } else {
        None
    }
}

/// The entries of the array stored under `key`, if an array is stored there.
pub open spec fn member_items(members: Map<Seq<char>, JsonContent>, key: Seq<char>) -> Option<
    Seq<Seq<char>>,
> {
    if members.contains_key(key) {
        match members[key] {
            JsonContent::Items(items) => Some(items),
            _ => None,
        }
    } else {
        None
    }
}

/// The views of a list of strings.
pub open spec fn texts_of(list: Seq<String>) -> Seq<Seq<char>> {
    list.map_values(|s: String| s@)
}

/// The compact JSON text of each value of a list.
pub open spec fn json_texts(list: Seq<serde_json::Value>) -> Seq<Seq<char>> {
    list.map_values(|value: serde_json::Value| json_text(value))
}

/// `serde_json::Map::new`: an object without members.
#[verifier::external_body]
pub(crate) fn json_object_new() -> (object: serde_json::Map<String, serde_json::Value>)
    ensures
        json_members(object) == no_members(),
{
    serde_json::Map::new()
}

/// `Value::from` on a `&str`: the JSON string with these characters.
#[verifier::external_body]
pub(crate) fn json_from_text(text: &str) -> (value: serde_json::Value)
    ensures
        json_value(value) == JsonContent::Text(text@),
{
    serde_json::Value::from(text)
}

/// `Value::from` on a `bool`: the JSON `true` or `false`.
#[verifier::external_body]
pub(crate) fn json_from_flag(flag: bool) -> (value: serde_json::Value)
    ensures
        json_value(value) == JsonContent::Flag(flag),
{
    serde_json::Value::from(flag)
}

/// `serde_json::Map::insert`: afterwards `key` holds `value`, and every
/// other key holds what it held.
#[verifier::external_body]
pub(crate) fn json_put(
    object: &mut serde_json::Map<String, serde_json::Value>,
    key: &str,
    value: serde_json::Value,
)
    ensures
        json_members(*final(object)) == json_members(*old(object)).insert(
            key@,
            json_value(value),
        ),
{
    object.insert(key.to_owned(), value);
}

/// `serde_json::Map::get`: the value stored under `key`, if one is stored
/// there.
#[verifier::external_body]
pub(crate) fn json_get<'a>(
    object: &'a serde_json::Map<String, serde_json::Value>,
    key: &str,
) -> (value: Option<&'a serde_json::Value>)
    ensures
        value is Some <==> json_members(*object).contains_key(key@),
        value matches Some(v) ==> json_members(*object)[key@] == json_value(*v),
{
    object.get(key)
}

/// `Value::as_str`: the characters of the value, if it is a JSON string.
#[verifier::external_body]
pub(crate) fn json_as_text(value: &serde_json::Value) -> (text: Option<&str>)
    ensures
        text matches Some(s) ==> json_value(*value) == JsonContent::Text(s@),
        text is None ==> !(json_value(*value) is Text),
{
    value.as_str()
}

/// `Value::as_array`: the entries of the value, if it is a JSON array. What
/// the array holds is the compact JSON text of each entry in order.
#[verifier::external_body]
pub(crate) fn json_as_array(value: &serde_json::Value) -> (entries: Option<
    &Vec<serde_json::Value>,
>)
    ensures
        entries matches Some(list) ==> json_value(*value) == JsonContent::Items(
            json_texts(list@),
        ),
        entries is None ==> !(json_value(*value) is Items),
{
    value.as_array()
}

/// `to_string` through the `Display` of `Value`: the compact JSON text of
/// the value.
#[verifier::external_body]
pub(crate) fn json_to_text(value: &serde_json::Value) -> (text: String)
    ensures
        text@ == json_text(*value),
{
    value.to_string()
}

/// `serde_json::from_str` into a `Map`: the object read from `text`, if one
/// is read. The result is a function of `text` alone.
#[verifier::external_body]
pub(crate) fn json_parse_object(text: &str) -> (object: Option<
    serde_json::Map<String, serde_json::Value>,
>)
    ensures
        object matches Some(o) ==> json_object_of(text@) == Some(json_members(o)),
        object is None ==> json_object_of(text@) is None,
{
    serde_json::from_str(text).ok()
}

} // verus!
