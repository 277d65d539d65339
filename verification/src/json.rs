//! JSON values, as `serde_json` holds them.
use crate::text::opt_str_view;
use vstd::prelude::*;

verus! {

/// What the library reads and writes of JSON: strings, objects, and the rest.
#[verifier::ext_equal]
pub enum Json {
    /// A string.
    Text(Seq<char>),
    /// An object: its members by their keys.
    Object(Map<Seq<char>, Json>),
    /// A value that is neither a string nor an object.
    Other,
}

/// `serde_json::Value`.
#[verifier::external_type_specification]
#[verifier::external_body]
pub struct ExValue(serde_json::Value);

/// `serde_json::Error`.
#[verifier::external_type_specification]
#[verifier::external_body]
pub struct ExError(serde_json::Error);

/// What a JSON value holds.
pub uninterp spec fn json_of(value: serde_json::Value) -> Json;

/// The value that `serde_json::from_str` reads in a text; none where the text is not a
/// JSON value.
pub uninterp spec fn json_read(text: Seq<char>) -> Option<Json>;

/// The member of an object with the key `key`.
pub open spec fn member_of(value: Json, key: Seq<char>) -> Option<Json> {
    match value {
        Json::Object(members) => if members.contains_key(key) {
            Some(members[key])
        } else {
            None
        },
        _ => None,
    }
}

/// The text of a string value.
pub open spec fn text_of(value: Option<Json>) -> Option<Seq<char>> {
    match value {
        Some(Json::Text(text)) => Some(text),
        _ => None,
    }
}

/// Calls `serde_json::from_str`. How a text is read takes the grammar of JSON to say,
/// so the result has a name.
#[verifier::external_body]
pub(crate) fn read_json(text: &str) -> (r: Result<serde_json::Value, serde_json::Error>)
    ensures
        json_read(text@) == match r {
            Ok(value) => Some(json_of(value)),
            Err(_) => None,
        },
{
    serde_json::from_str(text)
}

/// Calls `serde_json::Value::get` with a key: the member of an object with that key;
/// none where there is no such member, or the value is no object.
#[verifier::external_body]
pub(crate) fn member<'a>(value: &'a serde_json::Value, key: &str) -> (r: Option<
    &'a serde_json::Value,
>)
    ensures
        member_of(json_of(*value), key@) == match r {
            Some(found) => Some(json_of(*found)),
            None => None,
        },
{
    value.get(key)
}

/// Calls `serde_json::Value::as_str`: the text of a string, and none of another value.
#[verifier::external_body]
pub(crate) fn as_text(value: &serde_json::Value) -> (r: Option<&str>)
    ensures
        opt_str_view(r) == text_of(Some(json_of(*value))),
{
    value.as_str()
}

/// Calls `serde_json::Value::from` with a text: a string.
#[verifier::external_body]
pub(crate) fn text_value(text: &str) -> (r: serde_json::Value)
    ensures
        json_of(r) == Json::Text(text@),
{
    serde_json::Value::from(text)
}

/// Calls `serde_json::Map::new`: an object without members.
#[verifier::external_body]
pub(crate) fn empty_object() -> (r: serde_json::Value)
    ensures
        json_of(r) == Json::Object(Map::empty()),
{
    serde_json::Value::Object(serde_json::Map::new())
}

/// Assigns through `serde_json::Value::index_mut` with a key: the object has the member,
/// in place of one with the same key. On a value that is no object it can panic.
#[verifier::external_body]
pub(crate) fn set_member(object: &mut serde_json::Value, key: &str, value: serde_json::Value)
    requires
        json_of(*old(object)) is Object,
    ensures
        json_of(*final(object)) == Json::Object(
            json_of(*old(object))->Object_0.insert(key@, json_of(value)),
        ),
{
    object[key] = value;
}

/// The text of the string member with the key `key`.
pub fn text_member<'a>(value: &'a serde_json::Value, key: &str) -> (r: Option<&'a str>)
    ensures
        opt_str_view(r) == text_of(member_of(json_of(*value), key@)),
{
    match member(value, key) {
        Some(found) => as_text(found),
        None => None,
    }
}

} // verus!
