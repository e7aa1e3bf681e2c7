//! The parts of `serde_json` that the twin logic relies on, with what each
//! one is trusted to do.
use vstd::prelude::*;

verus! {

/// `serde_json::Value`, opaque: what the contracts know of one is `json_object`.
#[verifier::external_type_specification]
#[verifier::external_body]
pub struct ExJsonValue(serde_json::Value);

/// `serde_json::Map`, opaque: what the contracts know of one is `map_entries`.
#[verifier::external_type_specification]
#[verifier::external_body]
#[verifier::reject_recursive_types(K)]
#[verifier::reject_recursive_types(V)]
pub struct ExJsonMap<K, V>(serde_json::Map<K, V>);

/// `serde_json::Error`, opaque: only its presence is read.
#[verifier::external_type_specification]
#[verifier::external_body]
pub struct ExJsonError(serde_json::Error);

/// A JSON object's members as `serde_json` holds them.
pub type JsonMap = serde_json::Map<String, serde_json::Value>;

/// A JSON object's members, by key, as contracts speak of them.
pub type Members = Map<Seq<char>, serde_json::Value>;

/// The members of a JSON value that is an object, by key; `None` for any
/// other JSON value.
pub uninterp spec fn json_object(v: serde_json::Value) -> Option<Members>;

/// The members that a `serde_json::Map` holds, by key.
pub uninterp spec fn map_entries(m: JsonMap) -> Members;

/// The JSON string value holding `s`.
pub uninterp spec fn json_string(s: Seq<char>) -> serde_json::Value;

/// The member of `v` under `key`, or `None` where `v` is no object or has no
/// such member.
pub open spec fn member_of(v: serde_json::Value, key: Seq<char>) -> Option<serde_json::Value> {
    match json_object(v) {
        Some(m) => if m.contains_key(key) {
            Some(m[key])
        } else {
            None
        },
        None => None,
    }
}

/// Relies on `serde_json::Value`'s `Index<&str>`: the member under `key` of an
/// object, and `Value::Null`, which is no object, in every other case.
#[verifier::external_body]
pub(crate) fn member(v: &serde_json::Value, key: &str) -> (r: serde_json::Value)
    ensures
        member_of(*v, key@) matches Some(x) ==> r == x,
        member_of(*v, key@) is None ==> json_object(r) is None,
{
    v[key].clone()
}

/// Relies on `serde_json::from_value::<Map<String, Value>>`: it succeeds exactly
/// on an object and then holds that object's members.
#[verifier::external_body]
pub(crate) fn object_from_value(v: serde_json::Value) -> (r: Result<JsonMap, serde_json::Error>)
    ensures
        r is Ok <==> json_object(v) is Some,
        r matches Ok(m) ==> json_object(v) == Some(map_entries(m)),
{
    serde_json::from_value(v)
}

/// Relies on `serde_json::Map::new`: a map with no members.
#[verifier::external_body]
pub(crate) fn empty_map() -> (r: JsonMap)
    ensures
        map_entries(r) == Members::empty(),
{
    serde_json::Map::new()
}

/// Relies on `serde_json::Map::insert`: the member under `k` becomes `v`, and
/// the value it replaces, if any, is handed back.
#[verifier::external_body]
pub(crate) fn insert_member(
    m: &mut JsonMap,
    k: String,
    v: serde_json::Value,
) -> (r: Option<serde_json::Value>)
    ensures
        map_entries(*final(m)) == map_entries(*old(m)).insert(k@, v),
        r == (if map_entries(*old(m)).contains_key(k@) {
            Some(map_entries(*old(m))[k@])
        } else {
            None
        }),
{
    m.insert(k, v)
}

/// Relies on `serde_json::Map::remove`: the member under `key` is gone, and
/// its value, if there was one, is handed back.
#[verifier::external_body]
pub(crate) fn remove_member(m: &mut JsonMap, key: &str) -> (r:
    Option<serde_json::Value>)
    ensures
        map_entries(*final(m)) == map_entries(*old(m)).remove(key@),
        r == (if map_entries(*old(m)).contains_key(key@) {
            Some(map_entries(*old(m))[key@])
        } else {
            None
        }),
{
    m.remove(key)
}

/// Relies on the `serde_json::Value::Object` variant: an object with the
/// members of `m`.
#[verifier::external_body]
pub(crate) fn object_value(m: JsonMap) -> (r: serde_json::Value)
    ensures
        json_object(r) == Some(map_entries(m)),
{
    serde_json::Value::Object(m)
}

/// Relies on the `serde_json::Value::String` variant: a string value, which is
/// no object.
#[verifier::external_body]
pub(crate) fn string_value(s: &str) -> (r: serde_json::Value)
    ensures
        r == json_string(s@),
        json_object(r) is None,
{
    serde_json::Value::String(s.to_string())
}

} // verus!
