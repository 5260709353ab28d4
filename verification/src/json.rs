//! JSON values of the `serde_json` crate, as the library reads and renders
//! them.

use serde_json::Value;

use vstd::prelude::*;

verus! {

/// `serde_json::Value`, carried through without looking inside: the names
/// below say what its methods return.
#[verifier::external_type_specification]
#[verifier::external_body]
pub struct ExValue(Value);

/// Name of what a value holds under a key: the result of `Value::get` with a
/// string.
pub uninterp spec fn json_member(value: Value, key: Seq<char>) -> Option<Value>;

/// Name of the elements of a value that is an array: the result of
/// `Value::as_array`.
pub uninterp spec fn json_items(value: Value) -> Option<Seq<Value>>;

/// Name of the text of a value that is a string: the result of
/// `Value::as_str`.
pub uninterp spec fn json_str(value: Value) -> Option<Seq<char>>;

/// Name of the number that a value holds, where it is an unsigned integer:
/// the result of `Value::as_u64`.
pub uninterp spec fn json_u64(value: Value) -> Option<u64>;

/// Name of the compact JSON text of a value: the result of
/// `serde_json::to_string`.
pub uninterp spec fn json_text(value: Value) -> Seq<char>;

/// Name of the object made of `entries`, inserted in that order: the result of
/// `Map::from_iter`.
pub uninterp spec fn json_object(entries: Seq<(Seq<char>, Value)>) -> Value;

/// The entries of an object to be, with their keys as characters.
pub open spec fn entry_views(entries: Seq<(String, Value)>) -> Seq<(Seq<char>, Value)> {
    Seq::new(entries.len(), |i: int| (entries[i].0@, entries[i].1))
}

/// Whether some entry has the name `key`.
pub open spec fn names_key(entries: Seq<(Seq<char>, Value)>, key: Seq<char>) -> bool {
    exists|i: int| 0 <= i < entries.len() && (#[trigger] entries[i]).0 == key
}

/// `Value::clone` returns the value that it was given.
pub assume_specification[ <Value as Clone>::clone ](value: &Value) -> (copy: Value)
    ensures
        copy == *value,
;

/// Calls `Value::get` with a string: the member of that name where the value
/// is an object that has one, else nothing.
#[verifier::external_body]
pub(crate) fn value_member<'a>(value: &'a Value, key: &str) -> (member: Option<&'a Value>)
    ensures
        match member {
            Some(inner) => json_member(*value, key@) == Some(*inner),
            None => json_member(*value, key@) is None,
        },
{
    value.get(key)
}

/// Calls `Value::as_array`: the elements where the value is an array, else
/// nothing.
#[verifier::external_body]
pub(crate) fn value_items(value: &Value) -> (items: Option<&Vec<Value>>)
    ensures
        match items {
            Some(inner) => json_items(*value) == Some(inner@),
            None => json_items(*value) is None,
        },
{
    value.as_array()
}

/// Calls `Value::as_str`: the text where the value is a string, else nothing.
#[verifier::external_body]
pub(crate) fn value_str(value: &Value) -> (text: Option<&str>)
    ensures
        text.deep_view() == json_str(*value),
{
    value.as_str()
}

/// Calls `Value::as_u64`: the number where the value is an integer in the
/// range of `u64`, else nothing.
#[verifier::external_body]
pub(crate) fn value_u64(value: &Value) -> (number: Option<u64>)
    ensures
        number == json_u64(*value),
{
    value.as_u64()
}

/// Calls `serde_json::to_string` on a value, which does not fail: every key of
/// a `Value` is a string. The contract names the text.
#[verifier::external_body]
pub(crate) fn value_text(value: &Value) -> (text: String)
    ensures
        text@ == json_text(*value),
{
    serde_json::to_string(value).unwrap_or_default()
}

/// Calls `Map::from_iter` and holds the map as a `Value`. The contract names
/// the object as a function of the entries in their order, and claims that it
/// has a member under each key of an entry and under no other, and that every
/// member comes from an entry with its key. Which of several entries with one
/// key stays is left unsaid.
#[verifier::external_body]
pub(crate) fn object_of(entries: Vec<(String, Value)>) -> (object: Value)
    ensures
        object == json_object(entry_views(entries@)),
        forall|key: Seq<char>| (match #[trigger] json_member(object, key) {
            Some(member) => entry_views(entries@).contains((key, member)),
            None => !names_key(entry_views(entries@), key),
        }),
{
    Value::Object(serde_json::Map::from_iter(entries))
}

/// The text of the member `key`, where it is a string.
pub open spec fn str_member(value: Value, key: Seq<char>) -> Option<Seq<char>> {
    match json_member(value, key) {
        Some(member) => json_str(member),
        None => None,
    }
}

/// The number of the member `key`, where it is an unsigned integer.
pub open spec fn u64_member(value: Value, key: Seq<char>) -> Option<u64> {
    match json_member(value, key) {
        Some(member) => json_u64(member),
        None => None,
    }
}

/// Reads the text of the member `key`, where it is a string.
pub fn member_str<'a>(value: &'a Value, key: &str) -> (text: Option<&'a str>)
    ensures
        text.deep_view() == str_member(*value, key@),
{
    match value_member(value, key) {
        Some(member) => value_str(member),
        None => None,
    }
}

/// Reads the number of the member `key`, where it is an unsigned integer.
pub fn member_u64(value: &Value, key: &str) -> (number: Option<u64>)
    ensures
        number == u64_member(*value, key@),
{
    match value_member(value, key) {
        Some(member) => value_u64(member),
        None => None,
    }
}

} // verus!
