//! The boundary to `serde_json`: the document type, its mathematical model,
//! and the four calls the library makes on it.
//!
//! Nothing in this file is proved. Each function states what the source of
//! `serde_json` shows of the call in its body; the rest of the library is
//! verified against these statements.

use vstd::prelude::*;

verus! {

/// The mathematical content of a JSON document.
///
/// A number is known only to be a number: the library never reads one.
pub enum Json {
    Null,
    Bool(bool),
    Number,
    Text(Seq<char>),
    Array(Seq<Json>),
    Object(Map<Seq<char>, Json>),
}

/// What indexing by `key` finds in `doc`: the member of that name if `doc`
/// is an object that has one, and null in every other case.
pub open spec fn member(doc: Json, key: Seq<char>) -> Json {
    match doc {
        Json::Object(members) => if members.contains_key(key) {
            members[key]
        } else {
            Json::Null
        },
        _ => Json::Null,
    }
}

/// `serde_json::Value`, a parsed document.
#[verifier::external_type_specification]
#[verifier::external_body]
pub struct ExValue(serde_json::Value);

/// `serde_json::Error`, the reason why a text was refused.
#[verifier::external_type_specification]
#[verifier::external_body]
pub struct ExJsonError(serde_json::Error);

/// What a `serde_json::Value` holds.
pub uninterp spec fn json_of(value: serde_json::Value) -> Json;

/// What `serde_json::from_str` makes of a text: the document it reads, or
/// nothing where it refuses the text.
pub uninterp spec fn json_parsed(text: Seq<char>) -> Option<Json>;

/// `serde_json::from_str` at the type `Value`. The result depends on the
/// text alone: `Ok` with the document read, or `Err`.
#[verifier::external_body]
pub(crate) fn parse_value(text: &str) -> (r: Result<serde_json::Value, serde_json::Error>)
    ensures
        match r {
            Ok(value) => json_parsed(text@) == Some(json_of(value)),
            Err(_) => json_parsed(text@) is None,
        },
{
    serde_json::from_str::<serde_json::Value>(text)
}

/// The index operator of `Value` with a string key. It never panics: it
/// gives the member where `value` is an object that has the key, and a
/// null value otherwise.
#[verifier::external_body]
pub(crate) fn value_member<'a>(value: &'a serde_json::Value, key: &str) -> (r:
    &'a serde_json::Value)
    ensures
        json_of(*r) == member(json_of(*value), key@),
{
    &value[key]
}

/// `Value::as_array`: the items where `value` is an array, in their order,
/// and `None` otherwise.
#[verifier::external_body]
pub(crate) fn value_items(value: &serde_json::Value) -> (r: Option<&Vec<serde_json::Value>>)
    ensures
        match r {
            Some(items) => json_of(*value) == Json::Array(
                items@.map_values(|item: serde_json::Value| json_of(item)),
            ),
            None => !(json_of(*value) is Array),
        },
{
    value.as_array()
}

/// `Value::as_str`: the text where `value` is a string, and `None`
/// otherwise.
#[verifier::external_body]
pub(crate) fn value_text(value: &serde_json::Value) -> (r: Option<&str>)
    ensures
        match r {
            Some(text) => json_of(*value) == Json::Text(text@),
            None => !(json_of(*value) is Text),
        },
{
    value.as_str()
}

} // verus!
