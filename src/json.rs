//! The JSON values of serde_json, as far as the catalog codec uses them.
//!
//! `serde_json::Value` is opaque here; what the codec reads of a value is
//! named by the spec functions below, one for each accessor of serde_json
//! that it calls.

use vstd::prelude::*;

use serde_json::{Map as JsonMap, Value};

verus! {

#[verifier::external_type_specification]
#[verifier::external_body]
pub struct ExJsonValue(serde_json::Value);

#[verifier::external_type_specification]
#[verifier::external_body]
#[verifier::reject_recursive_types(K)]
#[verifier::reject_recursive_types(V)]
pub struct ExJsonMap<K, V>(serde_json::Map<K, V>);

/// What `Value::get` with a string key gives: the member of an object.
pub uninterp spec fn json_member(v: Value, key: Seq<char>) -> Option<Value>;

/// What `Value::as_str` gives: the text of a string.
pub uninterp spec fn json_text(v: Value) -> Option<Seq<char>>;

/// What `Value::as_i64` gives: a number that fits an `i64`.
pub uninterp spec fn json_int(v: Value) -> Option<i64>;

/// What `Value::is_null` gives.
pub uninterp spec fn json_is_null(v: Value) -> bool;

/// What `Value::as_array` gives: the items of an array.
pub uninterp spec fn json_items(v: Value) -> Option<Seq<Value>>;

/// The members that an object map holds, by key.
pub uninterp spec fn object_entries(m: JsonMap<String, Value>) -> Map<Seq<char>, Value>;

/// What `serde_json::from_slice::<Value>` gives: the value that the bytes
/// hold, if they are well-formed JSON.
pub uninterp spec fn json_parse(b: Seq<u8>) -> Option<Value>;

/// What `serde_json::to_vec_pretty` gives for a value: its indented JSON
/// text, if it can be written.
pub uninterp spec fn json_pretty(v: Value) -> Option<Seq<u8>>;

/// Relies on `Value::get` with a `&str` index: the member under `key` of an
/// object; `None` for a missing key or a value that is no object.
#[verifier::external_body]
pub(crate) fn member<'a>(v: &'a Value, key: &str) -> (r: Option<&'a Value>)
    ensures
        match r {
            Some(x) => json_member(*v, key@) == Some(*x),
            None => json_member(*v, key@) is None,
        },
{
    v.get(key)
}

pub assume_specification[ Value::as_str ](v: &Value) -> (r: Option<&str>)
    ensures
        match r {
            Some(s) => json_text(*v) == Some(s@),
            None => json_text(*v) is None,
        },
;

pub assume_specification[ Value::as_i64 ](v: &Value) -> (r: Option<i64>)
    ensures
        r == json_int(*v),
;

pub assume_specification[ Value::is_null ](v: &Value) -> (r: bool)
    ensures
        r == json_is_null(*v),
;

pub assume_specification[ Value::as_array ](v: &Value) -> (r: Option<&Vec<Value>>)
    ensures
        match r {
            Some(a) => json_items(*v) == Some(a@),
            None => json_items(*v) is None,
        },
;

/// Relies on `Value::String`: `as_str` gives its text back; it is not null.
#[verifier::external_body]
pub(crate) fn text_value(s: String) -> (r: Value)
    ensures
        json_text(r) == Some(s@),
        !json_is_null(r),
{
    Value::String(s)
}

/// Relies on `Value::Null`, for which `is_null` holds.
#[verifier::external_body]
pub(crate) fn null_value() -> (r: Value)
    ensures
        json_is_null(r),
{
    Value::Null
}

/// Relies on `Value::from(i64)`, a number that `as_i64` gives back; it is
/// not null.
#[verifier::external_body]
pub(crate) fn int_value(n: i64) -> (r: Value)
    ensures
        json_int(r) == Some(n),
        !json_is_null(r),
{
    Value::from(n)
}

/// Relies on `Value::Array`: `as_array` gives its items back; it is not null.
#[verifier::external_body]
pub(crate) fn array_value(items: Vec<Value>) -> (r: Value)
    ensures
        json_items(r) == Some(items@),
        !json_is_null(r),
{
    Value::Array(items)
}

/// Relies on `Value::Object`: `get` with a string key finds what the map
/// holds under that key; it is not null.
#[verifier::external_body]
pub(crate) fn object_value(m: JsonMap<String, Value>) -> (r: Value)
    ensures
        forall|k: Seq<char>| #[trigger]
            json_member(r, k) == (if object_entries(m).contains_key(k) {
                Some(object_entries(m)[k])
            } else {
                None
            }),
        !json_is_null(r),
{
    Value::Object(m)
}

/// Relies on `Map::new`: an object map with no members.
#[verifier::external_body]
pub(crate) fn empty_object() -> (r: JsonMap<String, Value>)
    ensures
        object_entries(r).dom() == Set::<Seq<char>>::empty(),
{
    JsonMap::new()
}

/// Relies on `Map::insert`: the member under `k` becomes `v`; the others stay.
#[verifier::external_body]
pub(crate) fn put_member(m: &mut JsonMap<String, Value>, k: String, v: Value)
    ensures
        object_entries(*final(m)) == object_entries(*old(m)).insert(k@, v),
{
    m.insert(k, v);
}

/// Relies on `serde_json::from_slice::<Value>`: the value that the bytes hold,
/// or `None` where they are not well-formed JSON.
#[verifier::external_body]
pub(crate) fn parse_json(b: &[u8]) -> (r: Option<Value>)
    ensures
        r == json_parse(b@),
{
    serde_json::from_slice::<Value>(b).ok()
}

/// Relies on `serde_json::to_vec_pretty`: the value written as indented
/// JSON, or `None` where serde_json reports an error.
#[verifier::external_body]
pub(crate) fn pretty_json(v: &Value) -> (r: Option<Vec<u8>>)
    ensures
        match r {
            Some(b) => json_pretty(*v) == Some(b@),
            None => json_pretty(*v) is None,
        },
{
    serde_json::to_vec_pretty(v).ok()
}

} // verus!
