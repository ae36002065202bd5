//! JSON replies in the library's own form, and the lookups made in them.
use vstd::prelude::*;

use crate::text::str_eq;

verus! {

/// A JSON value, as serde_json's `Value` holds it: a number is kept as what
/// `Number::as_u64` gives (its value when a non-negative integer), an
/// object as its entries in the map's order.
#[derive(Debug)]
pub enum JsonValue {
    Null,
    Bool(bool),
    Number(Option<u64>),
    String(String),
    Array(Vec<JsonValue>),
    Object(Vec<(String, JsonValue)>),
}

/// What `serde_json::from_str::<Value>` makes of the text: the value, or
/// the parse error's message.
pub uninterp spec fn json_value_of(text: Seq<char>) -> Result<JsonValue, String>;

/// `serde_json::from_str::<serde_json::Value>`: the value the text holds in
/// the form of `JsonValue`, or the error's message. The parse is named
/// `json_value_of` and not spelled out.
#[verifier::external_body]
pub(crate) fn read_json(text: &str) -> (r: Result<JsonValue, String>)
    ensures
        r == json_value_of(text@),
{
    match serde_json::from_str::<serde_json::Value>(text) {
        Ok(v) => Ok(mirror(&v)),
        Err(e) => Err(e.to_string()),
    }
}

/// serde_json's `Value` as a `JsonValue`, variant for variant (part of the
/// conversion that `read_json` names as a whole).
#[verifier::external_body]
fn mirror(v: &serde_json::Value) -> JsonValue {
    match v {
        serde_json::Value::Null => JsonValue::Null,
        serde_json::Value::Bool(b) => JsonValue::Bool(*b),
        serde_json::Value::Number(n) => JsonValue::Number(n.as_u64()),
        serde_json::Value::String(s) => JsonValue::String(s.clone()),
        serde_json::Value::Array(xs) => JsonValue::Array(xs.iter().map(mirror).collect()),
        serde_json::Value::Object(m) => JsonValue::Object(
            m.iter().map(|(k, x)| (k.clone(), mirror(x))).collect(),
        ),
    }
}

/// The value of the first entry named `key` (an object holds each key once).
pub open spec fn object_get(m: Seq<(String, JsonValue)>, key: Seq<char>) -> Option<JsonValue>
    decreases m.len(),
{
    if m.len() == 0 {
        None
    } else if m[0].0@ == key {
        Some(m[0].1)
    } else {
        object_get(m.drop_first(), key)
    }
}

/// `Value::get(key)`: the value under `key` when `v` is an object.
pub open spec fn json_get_spec(v: JsonValue, key: Seq<char>) -> Option<JsonValue> {
    match v {
        JsonValue::Object(m) => object_get(m@, key),
        _ => None,
    }
}

/// `Value::as_u64`.
pub open spec fn json_u64_spec(v: JsonValue) -> Option<u64> {
    match v {
        JsonValue::Number(n) => n,
        _ => None,
    }
}

/// The value under `key` (see `json_get_spec`).
pub fn json_get<'a>(v: &'a JsonValue, key: &str) -> (r: Option<&'a JsonValue>)
    ensures
        match r {
            Some(x) => json_get_spec(*v, key@) == Some(*x),
            None => json_get_spec(*v, key@) is None,
        },
{
    match v {
        JsonValue::Object(m) => {
            assert(m@.subrange(0, m@.len() as int) =~= m@);
            let mut i: usize = 0;
            while i < m.len()
                invariant
                    0 <= i <= m@.len(),
                    json_get_spec(*v, key@) == object_get(m@, key@),
                    object_get(m@, key@) == object_get(m@.subrange(i as int, m@.len() as int), key@),
                decreases m.len() - i,
            {
                let ghost rest = m@.subrange(i as int, m@.len() as int);
                assert(rest.drop_first() =~= m@.subrange(i + 1, m@.len() as int));
                assert(rest[0] == m@[i as int]);
                if str_eq(m[i].0.as_str(), key) {
                    return Some(&m[i].1);
                }
                i = i + 1;
            }
            assert(m@.subrange(i as int, m@.len() as int) =~= Seq::<(String, JsonValue)>::empty());
            None
        },
        _ => None,
    }
}

/// The unsigned number `v` holds (see `json_u64_spec`).
pub fn json_u64(v: &JsonValue) -> (r: Option<u64>)
    ensures
        r == json_u64_spec(*v),
{
    match v {
        JsonValue::Number(n) => *n,
        _ => None,
    }
}

} // verus!
