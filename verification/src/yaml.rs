//! YAML documents in the library's own form, and the lookups the
//! subscription parser makes in them.
use vstd::prelude::*;

use crate::text::str_eq;

verus! {

/// serde_yaml's document value, handed from the parser to the conversion.
#[verifier::external_type_specification]
#[verifier::external_body]
pub struct ExYamlValue(serde_yaml::Value);

/// A YAML value, as serde_yaml's `Value` holds it: a number is kept as what
/// `Number::as_u64` gives (its value when a non-negative integer), a tagged
/// value as the value its tag stands on.
#[derive(Debug)]
pub enum YamlValue {
    Null,
    Bool(bool),
    Number(Option<u64>),
    String(String),
    Sequence(Vec<YamlValue>),
    Mapping(Vec<(YamlValue, YamlValue)>),
    Tagged(Box<YamlValue>),
}

/// What `serde_yaml::from_str::<Value>` makes of the text: the document,
/// or the parse error's message.
pub uninterp spec fn yaml_value_of(text: Seq<char>) -> Result<YamlValue, String>;

/// `serde_yaml::from_str::<serde_yaml::Value>`: the document the text holds
/// in the form of `YamlValue`, or the error's message. The parse is named
/// `yaml_value_of` and not spelled out.
#[verifier::external_body]
pub(crate) fn read_yaml(text: &str) -> (r: Result<YamlValue, String>)
    ensures
        r == yaml_value_of(text@),
{
    match serde_yaml::from_str::<serde_yaml::Value>(text) {
        Ok(v) => Ok(mirror(&v)),
        Err(e) => Err(e.to_string()),
    }
}

/// serde_yaml's `Value` as a `YamlValue`, variant for variant (part of the
/// conversion that `read_yaml` names as a whole).
#[verifier::external_body]
fn mirror(v: &serde_yaml::Value) -> YamlValue {
    match v {
        serde_yaml::Value::Null => YamlValue::Null,
        serde_yaml::Value::Bool(b) => YamlValue::Bool(*b),
        serde_yaml::Value::Number(n) => YamlValue::Number(n.as_u64()),
        serde_yaml::Value::String(s) => YamlValue::String(s.clone()),
        serde_yaml::Value::Sequence(xs) => YamlValue::Sequence(xs.iter().map(mirror).collect()),
        serde_yaml::Value::Mapping(m) => YamlValue::Mapping(
            m.iter().map(|(k, x)| (mirror(k), mirror(x))).collect(),
        ),
        serde_yaml::Value::Tagged(t) => YamlValue::Tagged(Box::new(mirror(&t.value))),
    }
}

/// The value under any tags.
pub open spec fn untagged(v: YamlValue) -> YamlValue
    decreases v,
{
    match v {
        YamlValue::Tagged(b) => untagged(*b),
        _ => v,
    }
}

/// The value of the first entry whose key is the string `key` (a YAML
/// mapping holds each key once).
pub open spec fn mapping_get(m: Seq<(YamlValue, YamlValue)>, key: Seq<char>) -> Option<YamlValue>
    decreases m.len(),
{
    if m.len() == 0 {
        None
    } else if m[0].0 matches YamlValue::String(s) && s@ == key {
        Some(m[0].1)
    } else {
        mapping_get(m.drop_first(), key)
    }
}

/// `Value::get(key)`: the value under the string key `key` when `v` is a
/// mapping (tags looked through).
pub open spec fn value_get(v: YamlValue, key: Seq<char>) -> Option<YamlValue> {
    match untagged(v) {
        YamlValue::Mapping(m) => mapping_get(m@, key),
        _ => None,
    }
}

/// `Value::as_str`.
pub open spec fn value_str(v: YamlValue) -> Option<String> {
    match untagged(v) {
        YamlValue::String(s) => Some(s),
        _ => None,
    }
}

/// `Value::as_u64`.
pub open spec fn value_u64(v: YamlValue) -> Option<u64> {
    match untagged(v) {
        YamlValue::Number(n) => n,
        _ => None,
    }
}

/// `Value::as_sequence`.
pub open spec fn value_seq(v: YamlValue) -> Option<Seq<YamlValue>> {
    match untagged(v) {
        YamlValue::Sequence(xs) => Some(xs@),
        _ => None,
    }
}

/// The value under any tags (see `untagged`).
pub fn untag(v: &YamlValue) -> (r: &YamlValue)
    ensures
        *r == untagged(*v),
    decreases v,
{
    match v {
        YamlValue::Tagged(b) => untag(b),
        _ => v,
    }
}

/// The value under the string key `key` (see `value_get`).
pub fn yaml_get<'a>(v: &'a YamlValue, key: &str) -> (r: Option<&'a YamlValue>)
    ensures
        match r {
            Some(x) => value_get(*v, key@) == Some(*x),
            None => value_get(*v, key@) is None,
        },
{
    match untag(v) {
        YamlValue::Mapping(m) => {
            assert(m@.subrange(0, m@.len() as int) =~= m@);
            let mut i: usize = 0;
            while i < m.len()
                invariant
                    0 <= i <= m@.len(),
                    value_get(*v, key@) == mapping_get(m@, key@),
                    mapping_get(m@, key@) == mapping_get(m@.subrange(i as int, m@.len() as int), key@),
                decreases m.len() - i,
            {
                let ghost rest = m@.subrange(i as int, m@.len() as int);
                assert(rest.drop_first() =~= m@.subrange(i + 1, m@.len() as int));
                assert(rest[0] == m@[i as int]);
                let hit = match &m[i].0 {
                    YamlValue::String(s) => str_eq(s.as_str(), key),
                    _ => false,
                };
                if hit {
                    return Some(&m[i].1);
                }
                i = i + 1;
            }
            assert(m@.subrange(i as int, m@.len() as int) =~= Seq::<(YamlValue, YamlValue)>::empty());
            None
        },
        _ => None,
    }
}

/// The string `v` holds (see `value_str`).
pub fn yaml_str(v: &YamlValue) -> (r: Option<String>)
    ensures
        r == value_str(*v),
{
    match untag(v) {
        YamlValue::String(s) => Some(s.clone()),
        _ => None,
    }
}

/// The unsigned number `v` holds (see `value_u64`).
pub fn yaml_u64(v: &YamlValue) -> (r: Option<u64>)
    ensures
        r == value_u64(*v),
{
    match untag(v) {
        YamlValue::Number(n) => *n,
        _ => None,
    }
}

/// The items `v` holds when a sequence (see `value_seq`).
pub fn yaml_seq(v: &YamlValue) -> (r: Option<&Vec<YamlValue>>)
    ensures
        match r {
            Some(xs) => value_seq(*v) == Some(xs@),
            None => value_seq(*v) is None,
        },
{
    match untag(v) {
        YamlValue::Sequence(xs) => Some(xs),
        _ => None,
    }
}

} // verus!
