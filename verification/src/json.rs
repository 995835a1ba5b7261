//! Trusted boundary to serde_json. Envelopes and responses are JSON; the
//! broker's verified logic never looks inside a `serde_json::Value`
//! directly, it goes through these wrappers. What a wrapper computes is a
//! function of its arguments alone, so each result is pinned to a named
//! value (`envelope_op`, `stripped`, ...) that the dispatcher's contracts
//! then speak of exactly.

use vstd::prelude::*;
use serde_json::Value;

verus! {

#[verifier::external_type_specification]
#[verifier::external_body]
pub struct ExValue(Value);

/// The `op` field of `s`: `Some` of its text exactly when `s` parses as a
/// JSON document whose `op` field is a string, `None` otherwise. A
/// function of the text alone.
pub uninterp spec fn envelope_op(s: Seq<char>) -> Option<Seq<char>>;

/// The serialization of the `data` field of `s` (the text `null` when the
/// field is absent), meaningful where `envelope_op(s)` is `Some`.
pub uninterp spec fn envelope_data(s: Seq<char>) -> Seq<char>;

/// Relies on serde_json::from_str::<Value>, Value::get, Value::as_str and
/// serde_json::to_string: splits an envelope into its `op` text and the
/// serialization of its `data` field. Parsing depends on the text alone.
#[verifier::external_body]
pub(crate) fn envelope_fields(raw: &str) -> (r: Option<(String, String)>)
    ensures
        r is Some <==> envelope_op(raw@) is Some,
        r matches Some(p) ==> Option::Some(p.0@) == envelope_op(raw@) && p.1@ == envelope_data(
            raw@,
        ),
{
    let v: Value = serde_json::from_str(raw).ok()?;
    let op = v.get("op")?.as_str()?.to_owned();
    let data = match v.get("data") {
        Some(d) => serde_json::to_string(d).ok()?,
        None => "null".to_owned(),
    };
    Some((op, data))
}

/// The integer at field `key` of the JSON text `s`, when `s` parses to an
/// object carrying an integer that fits an i64 there. A function of the
/// text alone.
pub uninterp spec fn payload_i64_of(s: Seq<char>, key: Seq<char>) -> Option<i64>;

/// Relies on serde_json::from_str::<Value>, Value::get and Value::as_i64:
/// reads one integer field out of a JSON payload.
#[verifier::external_body]
pub(crate) fn payload_field_i64(data: &str, key: &str) -> (r: Option<i64>)
    ensures
        r == payload_i64_of(data@, key@),
{
    serde_json::from_str::<Value>(data).ok()?.get(key)?.as_i64()
}

/// The integer at `v[outer][field]`, when `v` holds an object under
/// `outer` with an i64 integer at `field`.
pub uninterp spec fn nested_i64(v: Value, outer: Seq<char>, field: Seq<char>) -> Option<i64>;

/// Relies on Value::get and Value::as_i64: reads an integer two levels
/// down in a response value.
#[verifier::external_body]
pub(crate) fn nested_field_i64(v: &Value, outer: &str, field: &str) -> (r: Option<i64>)
    ensures
        r == nested_i64(*v, outer@, field@),
{
    v.get(outer)?.get(field)?.as_i64()
}

/// Whether the value is a JSON object.
pub uninterp spec fn is_object(v: Value) -> bool;

/// The compact serialization of the object `v` with the string `val`
/// stored under `key`, meaningful where `is_object(v)` holds.
pub uninterp spec fn dump_with_str_field(v: Value, key: Seq<char>, val: Seq<char>) -> Seq<char>;

/// Relies on Value::clone, Value::as_object_mut, Map::insert,
/// Value::String and serde_json::to_string: serializes a copy of the
/// object with one string field set, exactly when the value is an object
/// (serializing a `Value` itself cannot fail: its maps have string keys).
#[verifier::external_body]
pub(crate) fn encode_with_field(v: &Value, key: &str, val: &str) -> (r: Option<String>)
    ensures
        r is Some <==> is_object(*v),
        r matches Some(s) ==> s@ == dump_with_str_field(*v, key@, val@),
{
    let mut c = v.clone();
    let m = c.as_object_mut()?;
    m.insert(key.to_owned(), Value::String(val.to_owned()));
    serde_json::to_string(&c).ok()
}

/// The object `v` with the number `n` stored under `key`, meaningful
/// where `is_object(v)` holds.
pub uninterp spec fn with_u64_field(v: Value, key: Seq<char>, n: u64) -> Value;

/// Relies on Value::as_object_mut, Map::insert and Value's From<u64>:
/// sets a numeric field on an object in place, and says whether the value
/// was an object (a non-object is left unchanged).
#[verifier::external_body]
pub(crate) fn set_u64_field(v: &mut Value, key: &str, n: u64) -> (r: bool)
    ensures
        r == is_object(*old(v)),
        r ==> *final(v) == with_u64_field(*old(v), key@, n) && is_object(*final(v)),
        !r ==> *final(v) == *old(v),
{
    match v.as_object_mut() {
        Some(m) => {
            m.insert(key.to_owned(), Value::from(n));
            true
        },
        None => false,
    }
}

/// The value with `field` removed from the object stored under `outer`;
/// the value unchanged where either level is not an object with that key.
pub uninterp spec fn stripped(v: Value, outer: Seq<char>, field: Seq<char>) -> Value;

/// Relies on Value::get_mut, Value::as_object_mut and Map::remove:
/// removes one field of a nested object in place. Removing an inner field
/// never changes whether the root is an object.
#[verifier::external_body]
pub(crate) fn json_remove_nested(v: &mut Value, outer: &str, field: &str)
    ensures
        *final(v) == stripped(*old(v), outer@, field@),
        is_object(*final(v)) == is_object(*old(v)),
{
    if let Some(inner) = v.get_mut(outer) {
        if let Some(m) = inner.as_object_mut() {
            m.remove(field);
        }
    }
}

/// Relies on serde_json::Value's derived Clone: a deep copy equal to the
/// original.
#[verifier::external_body]
pub(crate) fn json_clone(v: &Value) -> (r: Value)
    ensures
        r == *v,
{
    v.clone()
}

} // verus!
