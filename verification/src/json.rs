//! The part of `serde_json` that the query decoder calls, and what the
//! library takes as given of it.
use std::collections::HashMap;
use vstd::prelude::*;

verus! {

#[verifier::external_type_specification]
#[verifier::external_body]
pub struct ExJsonValue(serde_json::Value);

#[verifier::external_type_specification]
#[verifier::external_body]
pub struct ExJsonError(serde_json::Error);

/// What a JSON value holds, as far as this library looks into it:
/// the items of an array, the entries of an object; `Other` stands for a
/// boolean, a number or a string.
pub enum JsonShape {
    Null,
    Array(Seq<serde_json::Value>),
    Object(Map<Seq<char>, serde_json::Value>),
    Other,
}

/// What `value` holds: every wrapper below over a JSON value speaks of it.
pub uninterp spec fn json_shape(value: serde_json::Value) -> JsonShape;

/// What `serde_json::from_str::<serde_json::Value>` returns for `text`.
pub uninterp spec fn json_from_str_result(text: Seq<char>) -> Result<serde_json::Value, serde_json::Error>;

/// Calls `serde_json::from_str` into a `serde_json::Value`. Its result is
/// a function of the text alone; what the value holds is left to
/// `json_shape`.
#[verifier::external_body]
pub(crate) fn json_from_str(text: &str) -> (r: Result<serde_json::Value, serde_json::Error>)
    ensures
        r == json_from_str_result(text@),
{
    serde_json::from_str(text)
}

/// Calls `serde_json::Value::is_object`: true exactly for an object.
#[verifier::external_body]
pub(crate) fn json_is_object(value: &serde_json::Value) -> (r: bool)
    ensures
        r == (json_shape(*value) is Object),
{
    value.is_object()
}

/// Calls `serde_json::Value::as_array`: the items of an array, `None` for
/// anything else.
#[verifier::external_body]
pub(crate) fn json_as_array(value: &serde_json::Value) -> (r: Option<&Vec<serde_json::Value>>)
    ensures
        match json_shape(*value) {
            JsonShape::Array(items) => r matches Some(a) && a@ == items,
            _ => r is None,
        },
{
    value.as_array()
}

/// Calls `serde_json::Value::get` with a key: the entry of an object under
/// `key`, `None` where there is none or the value is no object.
#[verifier::external_body]
pub(crate) fn json_get<'a>(value: &'a serde_json::Value, key: &str) -> (r: Option<&'a serde_json::Value>)
    ensures
        match json_shape(*value) {
            JsonShape::Object(m) => {
                &&& (r is Some <==> m.contains_key(key@))
                &&& (r matches Some(x) ==> *x == m[key@])
            },
            _ => r is None,
        },
{
    value.get(key)
}

/// The clone of a JSON value is an equal value.
pub assume_specification[ <serde_json::Value as Clone>::clone ](value: &serde_json::Value) -> (r: serde_json::Value)
    ensures
        r == *value,
;

/// Builds `serde_json::Value::Null`.
#[verifier::external_body]
pub(crate) fn json_null() -> (r: serde_json::Value)
    ensures
        json_shape(r) is Null,
{
    serde_json::Value::Null
}

/// A map from names to JSON values.
pub type JsonEntries = HashMap<String, serde_json::Value>;

/// Whether the string-keyed map `h` holds exactly the entries of `m`.
pub open spec fn holds_entries(
    h: Map<String, serde_json::Value>,
    m: Map<Seq<char>, serde_json::Value>,
) -> bool {
    &&& forall|k: String| #[trigger]
        h.contains_key(k) ==> m.contains_key(k@) && h[k] == m[k@]
    &&& forall|key: Seq<char>| #[trigger]
        m.contains_key(key) ==> exists|k: String| k@ == key && #[trigger] h.contains_key(k)
}

/// Copies the entries of a JSON object into a `HashMap` (a clone of the
/// `serde_json::Map`, collected into the map).
#[verifier::external_body]
pub(crate) fn json_object_entries(value: &serde_json::Value) -> (r: JsonEntries)
    requires
        json_shape(*value) is Object,
    ensures
        holds_entries(r@, json_shape(*value)->Object_0),
{
    match value {
        serde_json::Value::Object(map) => map.clone().into_iter().collect(),
        _ => HashMap::new(),
    }
}

/// Calls `HashMap::from` on one entry.
#[verifier::external_body]
pub(crate) fn singleton_map(key: String, value: serde_json::Value) -> (r: JsonEntries)
    ensures
        r@ == Map::empty().insert(key, value),
{
    HashMap::from([(key, value)])
}

} // verus!
