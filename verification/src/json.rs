//! JSON values as the records carry them: `serde_json::Value`, read through
//! a mathematical model of what a value holds.
use vstd::prelude::*;

verus! {

/// `serde_json::Value`, taken as it is: nothing is known of a value but
/// what the functions below say of its contents.
#[verifier::external_type_specification]
#[verifier::external_body]
pub struct ExJsonValue(serde_json::Value);

/// What a JSON value holds. Numbers are modelled for integers only, the one
/// kind of number that this library writes; an object is a map, so the order
/// of its members is no part of it.
pub enum JsonModel {
    Null,
    Bool(bool),
    Number(int),
    Text(Seq<char>),
    Array(Seq<JsonModel>),
    Object(Map<Seq<char>, JsonModel>),
}

/// The contents of a `serde_json::Value`.
pub uninterp spec fn json_model(value: serde_json::Value) -> JsonModel;

/// The contents of each value of a sequence.
pub open spec fn json_models(values: Seq<serde_json::Value>) -> Seq<JsonModel> {
    Seq::new(values.len(), |i: int| json_model(values[i]))
}

/// `serde_json::Map`, the members of a JSON object, taken as it is.
#[verifier::external_type_specification]
#[verifier::external_body]
#[verifier::reject_recursive_types(K)]
#[verifier::reject_recursive_types(V)]
pub struct ExJsonMap<K, V>(serde_json::Map<K, V>);

/// The members of a JSON object under construction, by key.
pub uninterp spec fn json_members(
    map: serde_json::Map<String, serde_json::Value>,
) -> Map<Seq<char>, JsonModel>;

/// `serde_json::Value::from` on an `i64`: the number of that value.
#[verifier::external_body]
pub(crate) fn json_from_i64(n: i64) -> (value: serde_json::Value)
    ensures
        json_model(value) == JsonModel::Number(n as int),
{
    serde_json::Value::from(n)
}

/// `serde_json::Value::from` on a `u64`: the number of that value.
#[verifier::external_body]
pub(crate) fn json_from_u64(n: u64) -> (value: serde_json::Value)
    ensures
        json_model(value) == JsonModel::Number(n as int),
{
    serde_json::Value::from(n)
}

/// `serde_json::Value::from` on a `String`: the string of that text.
#[verifier::external_body]
pub(crate) fn json_from_string(text: String) -> (value: serde_json::Value)
    ensures
        json_model(value) == JsonModel::Text(text@),
{
    serde_json::Value::from(text)
}

/// `serde_json::Value::from` on a `Vec` of values: the array of them, in order.
#[verifier::external_body]
pub(crate) fn json_from_vec(items: Vec<serde_json::Value>) -> (value: serde_json::Value)
    ensures
        json_model(value) == JsonModel::Array(json_models(items@)),
{
    serde_json::Value::from(items)
}

/// No member at all.
pub open spec fn no_members() -> Map<Seq<char>, JsonModel> {
    Map::empty()
}

/// `serde_json::Map::new`: an object without members.
#[verifier::external_body]
pub(crate) fn json_map_new() -> (object: serde_json::Map<String, serde_json::Value>)
    ensures
        json_members(object) == no_members(),
{
    serde_json::Map::new()
}

/// `serde_json::Map::insert`: the member is there under its key afterwards,
/// in place of the member that the key had before, and the other members
/// are as they were.
#[verifier::external_body]
pub(crate) fn json_map_insert(
    map: &mut serde_json::Map<String, serde_json::Value>,
    key: String,
    value: serde_json::Value,
)
    ensures
        json_members(*final(map)) == json_members(*old(map)).insert(key@, json_model(value)),
{
    map.insert(key, value);
}

/// `serde_json::Value::from` on a map: the object of the map's members.
#[verifier::external_body]
pub(crate) fn json_from_map(map: serde_json::Map<String, serde_json::Value>) -> (value:
    serde_json::Value)
    ensures
        json_model(value) == JsonModel::Object(json_members(map)),
{
    serde_json::Value::from(map)
}

/// `serde_json::Value::clone`: a value of the same contents.
pub assume_specification[ <serde_json::Value as Clone>::clone ](
    value: &serde_json::Value,
) -> (copy: serde_json::Value)
    ensures
        json_model(copy) == json_model(*value),
;

/// A number when it fits a JSON number, which holds what `i64` or `u64` holds.
pub fn json_from_i128(n: i128) -> (value: Option<serde_json::Value>)
    ensures
        value is Some <==> i64::MIN <= n <= u64::MAX,
        value is Some ==> json_model(value->0) == JsonModel::Number(n as int),
{
    if 0 <= n && n <= 18446744073709551615i128 {
        Some(json_from_u64(n as u64))
    } else if -9223372036854775808i128 <= n && n < 0 {
        Some(json_from_i64(n as i64))
    } else {
        None
    }
}

} // verus!
