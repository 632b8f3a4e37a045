//! The `serde_json` values that the projection builds, and what is taken on
//! trust about them.
//!
//! The crate is built with `serde_json`'s `preserve_order` feature, so that an
//! object yields its entries in the order in which they were inserted.

use vstd::prelude::*;
use crate::json::{has_key, Json};

verus! {

/// `serde_json::Value`, which the verifier does not look into.
#[verifier::external_type_specification]
#[verifier::external_body]
pub struct ExValue(serde_json::Value);

/// `serde_json::Map`, which the verifier does not look into.
#[verifier::external_type_specification]
#[verifier::external_body]
#[verifier::reject_recursive_types(K)]
#[verifier::reject_recursive_types(V)]
pub struct ExObjectMap<K, V>(serde_json::Map<K, V>);

/// `serde_json::Error`, which the verifier does not look into.
#[verifier::external_type_specification]
#[verifier::external_body]
pub struct ExJsonError(serde_json::Error);

/// The JSON value that a `serde_json::Value` holds: its variant, and within
/// an array or an object what each item holds, in the order in which the
/// value yields them. Nothing is said here of a number that `serde_json` does
/// not hold as an integer.
pub uninterp spec fn json_of(value: serde_json::Value) -> Json;

/// The entries of a `serde_json::Map`, in the order in which it yields them.
pub uninterp spec fn entries_of(map: serde_json::Map<String, serde_json::Value>) -> Seq<(Seq<char>, Json)>;

/// The text that `serde_json::to_string_pretty` writes for a value, or `None`
/// where it returns an error.
pub uninterp spec fn pretty_text(json: Json) -> Option<Seq<char>>;

/// The JSON values that a sequence of `serde_json::Value`s holds.
pub open spec fn jsons_of(values: Seq<serde_json::Value>) -> Seq<Json> {
    Seq::new(values.len(), |i: int| json_of(values[i]))
}

/// `serde_json::Value::Bool`: the JSON boolean `b`.
#[verifier::external_body]
pub(crate) fn bool_value(b: bool) -> (value: serde_json::Value)
    ensures
        json_of(value) == Json::Bool(b),
{
    serde_json::Value::Bool(b)
}

/// `serde_json::Value::from` on a `u64`: the JSON number `n`, held as an
/// integer.
#[verifier::external_body]
pub(crate) fn number_value(n: u64) -> (value: serde_json::Value)
    ensures
        json_of(value) == Json::Number(n as int),
{
    serde_json::Value::from(n)
}

/// `serde_json::Value::String`: the JSON string with the characters of `s`.
#[verifier::external_body]
pub(crate) fn text_value(s: String) -> (value: serde_json::Value)
    ensures
        json_of(value) == Json::Text(s@),
{
    serde_json::Value::String(s)
}

/// `serde_json::Value::Array`: the JSON array of the given items, in their
/// order.
#[verifier::external_body]
pub(crate) fn array_value(items: Vec<serde_json::Value>) -> (value: serde_json::Value)
    ensures
        json_of(value) == Json::Array(jsons_of(items@)),
{
    serde_json::Value::Array(items)
}

/// `serde_json::Map::new`: a map without entries.
#[verifier::external_body]
pub(crate) fn map_new() -> (map: serde_json::Map<String, serde_json::Value>)
    ensures
        entries_of(map) == Seq::<(Seq<char>, Json)>::empty(),
{
    serde_json::Map::new()
}

/// `serde_json::Map::insert` with a key that the map does not hold yet: the
/// entry comes last in the map's order, and no earlier value is handed back.
#[verifier::external_body]
pub(crate) fn map_insert(
    map: &mut serde_json::Map<String, serde_json::Value>,
    key: String,
    value: serde_json::Value,
) -> (previous: Option<serde_json::Value>)
    requires
        !has_key(entries_of(*old(map)), key@),
    ensures
        entries_of(*final(map)) == entries_of(*old(map)).push((key@, json_of(value))),
        previous is None,
{
    map.insert(key, value)
}

/// `serde_json::Value::Object`: the JSON object with the entries of `map`, in
/// the map's order.
#[verifier::external_body]
pub(crate) fn object_value(map: serde_json::Map<String, serde_json::Value>) -> (value:
    serde_json::Value)
    ensures
        json_of(value) == Json::Object(entries_of(map)),
{
    serde_json::Value::Object(map)
}

/// `serde_json::to_string_pretty` on a `serde_json::Value`: the text depends
/// on nothing but the JSON value that is written.
#[verifier::external_body]
pub(crate) fn to_string_pretty(value: &serde_json::Value) -> (outcome: Result<
    String,
    serde_json::Error,
>)
    ensures
        match outcome {
            Ok(text) => pretty_text(json_of(*value)) == Some(text@),
            Err(_) => pretty_text(json_of(*value)) is None,
        },
{
    serde_json::to_string_pretty(value)
}

/// `Display` of a `serde_json::Error`, through `to_string`: the error's
/// message. Nothing is claimed of what it says.
#[verifier::external_body]
pub(crate) fn error_message(error: &serde_json::Error) -> (message: String) {
    error.to_string()
}

} // verus!
