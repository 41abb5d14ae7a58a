use vstd::prelude::*;

verus! {

#[verifier::external_type_specification]
#[verifier::external_body]
pub struct ExJsonValue(serde_json::Value);

#[verifier::external_type_specification]
#[verifier::external_body]
#[verifier::reject_recursive_types(K)]
#[verifier::reject_recursive_types(V)]
pub struct ExJsonMap<K, V>(serde_json::Map<K, V>);

/// The key/value pairs that a JSON object map holds.
pub uninterp spec fn entries(m: serde_json::Map<String, serde_json::Value>) -> Map<
    Seq<char>,
    serde_json::Value,
>;

/// The key/value pairs of a JSON value that is an object; `None` for any
/// other kind of value.
pub uninterp spec fn object_entries(v: serde_json::Value) -> Option<Map<Seq<char>, serde_json::Value>>;

/// The JSON string value holding these characters.
pub uninterp spec fn json_string(s: Seq<char>) -> serde_json::Value;

/// The JSON number value holding this unsigned integer.
pub uninterp spec fn json_uint(n: nat) -> serde_json::Value;

/// The JSON boolean value holding `b`.
pub uninterp spec fn json_bool(b: bool) -> serde_json::Value;

/// Relies on serde_json::Map::new: a map without entries.
#[verifier::external_body]
pub(crate) fn new_object() -> (r: serde_json::Map<String, serde_json::Value>)
    ensures
        entries(r).dom() == Set::<Seq<char>>::empty(),
{
    serde_json::Map::new()
}

/// Relies on serde_json::Map::insert: the key gets the value, whether it was
/// there before or not; the other entries stay.
#[verifier::external_body]
pub(crate) fn insert_entry(
    m: &mut serde_json::Map<String, serde_json::Value>,
    key: String,
    value: serde_json::Value,
)
    ensures
        entries(*final(m)) == entries(*old(m)).insert(key@, value),
{
    m.insert(key, value);
}

/// Relies on serde_json::Map's `Extend`: every entry of `other` is inserted in
/// turn, so its values win over those already there.
#[verifier::external_body]
pub(crate) fn extend_entries(
    m: &mut serde_json::Map<String, serde_json::Value>,
    other: serde_json::Map<String, serde_json::Value>,
)
    ensures
        entries(*final(m)) == entries(*old(m)).union_prefer_right(entries(other)),
{
    m.extend(other);
}

/// Relies on serde_json::Value's `Object` variant: the map that an object
/// value holds, and `None` for the other variants.
#[verifier::external_body]
pub(crate) fn into_object(v: serde_json::Value) -> (r: Option<
    serde_json::Map<String, serde_json::Value>,
>)
    ensures
        match r {
            Some(m) => object_entries(v) == Some(entries(m)),
            None => object_entries(v) is None,
        },
{
    match v {
        serde_json::Value::Object(m) => Some(m),
        serde_json::Value::Null => None,
        serde_json::Value::Bool(_) => None,
        serde_json::Value::Number(_) => None,
        serde_json::Value::String(_) => None,
        serde_json::Value::Array(_) => None,
    }
}

/// Relies on serde_json::Value::Object: the object value holding the map.
#[verifier::external_body]
pub(crate) fn object_value(m: serde_json::Map<String, serde_json::Value>) -> (r: serde_json::Value)
    ensures
        object_entries(r) == Some(entries(m)),
{
    serde_json::Value::Object(m)
}

/// Relies on serde_json::Value::String: the string value holding `s`.
#[verifier::external_body]
pub(crate) fn string_value(s: String) -> (r: serde_json::Value)
    ensures
        r == json_string(s@),
{
    serde_json::Value::String(s)
}

/// Relies on serde_json::Number's `From<usize>`: the number value holding `n`.
#[verifier::external_body]
pub(crate) fn uint_value(n: usize) -> (r: serde_json::Value)
    ensures
        r == json_uint(n as nat),
{
    serde_json::Value::Number(serde_json::Number::from(n))
}

/// Relies on serde_json::Value::Bool: the boolean value holding `b`.
#[verifier::external_body]
pub(crate) fn bool_value(b: bool) -> (r: serde_json::Value)
    ensures
        r == json_bool(b),
{
    serde_json::Value::Bool(b)
}

} // verus!
