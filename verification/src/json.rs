//! The JSON documents that requests send and responses carry.
//!
//! A document lives in a `serde_json::Value`. Contracts speak of it through
//! [`json_of`], its mathematical value.

use vstd::prelude::*;

verus! {

/// A JSON document as a mathematical value.
pub enum Json {
    Null,
    Boolean(bool),
    /// A number that is held as an integer.
    Integer(int),
    /// A number that is held with a fraction or an exponent.
    Decimal,
    Text(Seq<char>),
    Array(Seq<Json>),
    Object(Map<Seq<char>, Json>),
}

/// `serde_json::Value`, which holds a document. Nothing of its inside is
/// visible here but through [`json_of`].
#[verifier::external_type_specification]
#[verifier::external_body]
pub struct ExValue(serde_json::Value);

/// `serde_json::Error`, which says why a text is no document.
#[verifier::external_type_specification]
#[verifier::external_body]
pub struct ExError(serde_json::Error);

/// The document that a `serde_json::Value` holds.
pub uninterp spec fn json_of(value: serde_json::Value) -> Json;

/// The document that `serde_json::from_str` reads from a text, if the text is one.
pub uninterp spec fn parsed(text: Seq<char>) -> Option<Json>;

/// The member of an object under a key. Anything but an object has no members.
pub open spec fn member(document: Json, key: Seq<char>) -> Option<Json> {
    match document {
        Json::Object(members) if members.contains_key(key) => Some(members[key]),
        _ => None,
    }
}

/// The number that a document is, if it is an integer from 0 to `u64::MAX`.
pub open spec fn as_unsigned(document: Json) -> Option<u64> {
    match document {
        Json::Integer(n) if 0 <= n <= u64::MAX => Some(n as u64),
        _ => None,
    }
}

/// The documents that a list of values holds, in order.
pub open spec fn documents(values: Seq<serde_json::Value>) -> Seq<Json> {
    values.map_values(|value: serde_json::Value| json_of(value))
}

/// `Value::as_u64` gives the number exactly when the value is a number held
/// as a non-negative integer.
pub assume_specification[ serde_json::Value::as_u64 ](value: &serde_json::Value) -> (number: Option<
    u64,
>)
    ensures
        number == as_unsigned(json_of(*value)),
;

/// `Value::as_str` gives the text exactly when the value is a string.
pub assume_specification<'a>[ serde_json::Value::as_str ](value: &'a serde_json::Value) -> (text:
    Option<&'a str>)
    ensures
        match text {
            Some(found) => json_of(*value) == Json::Text(found@),
            None => !(json_of(*value) is Text),
        },
;

/// `Value::as_bool` gives the flag exactly when the value is a boolean.
pub assume_specification[ serde_json::Value::as_bool ](value: &serde_json::Value) -> (flag: Option<
    bool,
>)
    ensures
        match flag {
            Some(found) => json_of(*value) == Json::Boolean(found),
            None => !(json_of(*value) is Boolean),
        },
;

/// `Value::is_null` tells whether the value is `null`.
pub assume_specification[ serde_json::Value::is_null ](value: &serde_json::Value) -> (null: bool)
    ensures
        null == (json_of(*value) is Null),
;

/// `Value::as_array` gives the items, in order, exactly when the value is an array.
pub assume_specification<'a>[ serde_json::Value::as_array ](value: &'a serde_json::Value) -> (items:
    Option<&'a Vec<serde_json::Value>>)
    ensures
        match items {
            Some(list) => json_of(*value) == Json::Array(documents(list@)),
            None => !(json_of(*value) is Array),
        },
;

/// `Value::get` with a string key: the member under that key when the value
/// is an object that has one, and nothing otherwise.
#[verifier::external_body]
pub(crate) fn get_member<'a>(value: &'a serde_json::Value, key: &str) -> (found: Option<
    &'a serde_json::Value,
>)
    ensures
        match found {
            Some(inner) => member(json_of(*value), key@) == Some(json_of(*inner)),
            None => member(json_of(*value), key@) is None,
        },
{
    value.get(key)
}

/// `serde_json::from_str` into a `Value`: whether a text is a JSON document,
/// and which, depends on the text alone.
#[verifier::external_body]
pub(crate) fn parse_document(text: &str) -> (outcome: Result<serde_json::Value, serde_json::Error>)
    ensures
        match outcome {
            Ok(value) => parsed(text@) == Some(json_of(value)),
            Err(_) => parsed(text@) is None,
        },
{
    serde_json::from_str::<serde_json::Value>(text)
}

/// `Value::Object` over `Map::new`: an object without members.
#[verifier::external_body]
pub(crate) fn empty_object() -> (value: serde_json::Value)
    ensures
        json_of(value) == Json::Object(Map::empty()),
{
    serde_json::Value::Object(serde_json::Map::new())
}

/// `Value::from` on a `u64`: that number, held as an integer.
#[verifier::external_body]
pub(crate) fn number_value(number: u64) -> (value: serde_json::Value)
    ensures
        json_of(value) == Json::Integer(number as int),
{
    serde_json::Value::from(number)
}

/// `Value::from` on a `&str`: a string with that text.
#[verifier::external_body]
pub(crate) fn text_value(text: &str) -> (value: serde_json::Value)
    ensures
        json_of(value) == Json::Text(text@),
{
    serde_json::Value::from(text)
}

/// Assignment through `Value`'s `IndexMut` with a string key: on an object,
/// the member under the key becomes the item and the other members stay.
#[verifier::external_body]
pub(crate) fn set_member(object: &mut serde_json::Value, key: &str, item: serde_json::Value)
    requires
        json_of(*old(object)) is Object,
    ensures
        json_of(*final(object)) == Json::Object(
            json_of(*old(object))->Object_0.insert(key@, json_of(item)),
        ),
{
    object[key] = item;
}

} // verus!
