//! The JSON object that carries the avatar map to the rendering engine, built
//! and encoded by `serde_json`. What is claimed of `serde_json` here is
//! believed, not proved.

use vstd::prelude::*;

verus! {

/// The error type of `serde_json`, which verified code only carries.
#[verifier::external_type_specification]
#[verifier::external_body]
pub struct ExJsonError(serde_json::Error);

/// The value type of `serde_json`, which verified code only carries.
#[verifier::external_type_specification]
#[verifier::external_body]
pub struct ExJsonValue(serde_json::Value);

/// The object type of `serde_json`: a map from keys to values. As this crate
/// builds `serde_json`, it keeps its members sorted by key.
#[verifier::external_type_specification]
#[verifier::external_body]
#[verifier::reject_recursive_types(K)]
#[verifier::reject_recursive_types(V)]
pub struct ExJsonMap<K, V>(serde_json::Map<K, V>);

/// The members of a JSON object whose values are strings: each key with its
/// value.
pub uninterp spec fn json_members(object: serde_json::Map<String, serde_json::Value>) -> Map<
    Seq<char>,
    Seq<char>,
>;

/// What `serde_json::to_string` gives for an object with these members: the
/// text, or nothing where it fails.
pub uninterp spec fn json_object_text(members: Map<Seq<char>, Seq<char>>) -> Option<Seq<char>>;

/// Calls `serde_json::Map::new`, which makes an object without members.
#[verifier::external_body]
pub(crate) fn json_object_new() -> (object: serde_json::Map<String, serde_json::Value>)
    ensures
        (json_members(object) == Map::<Seq<char>, Seq<char>>::empty()),
{
    serde_json::Map::new()
}

/// Calls `serde_json::Map::insert` with `value` as a JSON string. The object
/// then gives `key` that value, in place of any it gave before, and its other
/// members are as they were.
#[verifier::external_body]
pub(crate) fn json_object_insert(
    object: &mut serde_json::Map<String, serde_json::Value>,
    key: String,
    value: String,
)
    ensures
        json_members(*final(object)) == json_members(*old(object)).insert(key@, value@),
{
    object.insert(key, serde_json::Value::String(value));
}

/// Calls `serde_json::to_string` on an object. What comes back, the text or a
/// failure, is a function of the object's members alone, since they are
/// written in the order of their keys. On which members it succeeds is not
/// claimed.
#[verifier::external_body]
pub(crate) fn json_object_encode(object: &serde_json::Map<String, serde_json::Value>) -> (encoded:
    Result<String, serde_json::Error>)
    ensures
        encoded is Ok ==> json_object_text(json_members(*object)) == Some(encoded->Ok_0@),
        encoded is Err ==> json_object_text(json_members(*object)) is None,
{
    serde_json::to_string(object)
}

/// Formats a `serde_json::Error` with its `Display`. Nothing is claimed of the
/// text.
#[verifier::external_body]
pub(crate) fn describe_json_error(error: &serde_json::Error) -> (text: String) {
    error.to_string()
}

} // verus!
