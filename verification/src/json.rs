//! The generic JSON values that documents are read from and written to.
//!
//! The values, the objects and the codec are `serde_json`'s. Nothing in this
//! module is proved: it states what the rest of the crate relies on.

use vstd::prelude::*;

verus! {

/// `serde_json::Value`, a JSON value of any kind. Its inside is not modelled:
/// the crate reads a value only through `string_of` and `object_of`.
#[verifier::external_type_specification]
#[verifier::external_body]
pub struct ExValue(serde_json::Value);

/// `serde_json::Map`, the map from keys to values behind a JSON object.
#[verifier::external_type_specification]
#[verifier::external_body]
#[verifier::reject_recursive_types(K)]
#[verifier::reject_recursive_types(V)]
pub struct ExMap<K, V>(serde_json::Map<K, V>);

/// A generic JSON object.
pub type JsonObject = serde_json::Map<String, serde_json::Value>;

/// The members of an object: each key it holds, with the value under it.
pub uninterp spec fn object_members(object: serde_json::Map<String, serde_json::Value>) -> Map<
    Seq<char>,
    serde_json::Value,
>;

/// The text that a value holds, where the value is a JSON string.
pub uninterp spec fn string_of(value: serde_json::Value) -> Option<Seq<char>>;

/// The members of a value, where the value is a JSON object.
pub uninterp spec fn object_of(value: serde_json::Value) -> Option<
    Map<Seq<char>, serde_json::Value>,
>;

/// The value that a text decodes to, where the text is JSON.
pub uninterp spec fn json_decoding(text: Seq<char>) -> Option<serde_json::Value>;

/// The text that an object with the given members encodes to, where the
/// codec can write it. The codec writes the members in the order of their
/// keys, so the members fix the text.
pub uninterp spec fn json_encoding(members: Map<Seq<char>, serde_json::Value>) -> Option<
    Seq<char>,
>;

/// `serde_json::Map::get`: the value stored under `key`, or `None` where the
/// object has no such key.
#[verifier::external_body]
pub(crate) fn object_get<'a>(object: &'a JsonObject, key: &str) -> (r: Option<
    &'a serde_json::Value,
>)
    ensures
        match r {
            Some(value) => object_members(*object).contains_key(key@) && *value == object_members(
                *object,
            )[key@],
            None => !object_members(*object).contains_key(key@),
        },
{
    object.get(key)
}

/// `serde_json::Value::as_str`: the text of a JSON string, and `None` for a
/// value of any other kind.
pub assume_specification<'a>[ serde_json::Value::as_str ](value: &'a serde_json::Value) -> (r:
    Option<&'a str>)
    ensures
        match r {
            Some(s) => string_of(*value) == Some(s@),
            None => string_of(*value) is None,
        },
;

/// Takes the object out of a `serde_json::Value` that is the variant
/// `Object`; every other variant gives `None`.
#[verifier::external_body]
pub(crate) fn into_object(value: serde_json::Value) -> (r: Option<JsonObject>)
    ensures
        match r {
            Some(object) => object_of(value) == Some(object_members(object)),
            None => object_of(value) is None,
        },
{
    match value {
        serde_json::Value::Object(object) => Some(object),
        serde_json::Value::Null => None,
        serde_json::Value::Bool(_) => None,
        serde_json::Value::Number(_) => None,
        serde_json::Value::String(_) => None,
        serde_json::Value::Array(_) => None,
    }
}

/// `serde_json::from_str`, reading a `serde_json::Value`: the value that the
/// text spells, or `None` where the codec reports that the text is not JSON.
/// The same text always gives the same outcome.
#[verifier::external_body]
pub(crate) fn decode(text: &str) -> (r: Option<serde_json::Value>)
    ensures
        r == json_decoding(text@),
{
    match serde_json::from_str(text) {
        Ok(value) => Some(value),
        Err(_) => None,
    }
}

/// `serde_json::to_string`, writing an object: its JSON text, or `None`
/// where the codec reports that it cannot write the object. The same members
/// always give the same outcome.
#[verifier::external_body]
pub(crate) fn encode(object: &JsonObject) -> (r: Option<String>)
    ensures
        match r {
            Some(text) => json_encoding(object_members(*object)) == Some(text@),
            None => json_encoding(object_members(*object)) is None,
        },
{
    match serde_json::to_string(object) {
        Ok(text) => Some(text),
        Err(_) => None,
    }
}

} // verus!
