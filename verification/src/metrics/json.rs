//! JSON documents.
use serde_json::Value;
use vstd::prelude::*;

verus! {

/// A JSON value of the `serde_json` crate.
#[verifier::external_type_specification]
#[verifier::external_body]
pub struct ExValue(Value);

/// The members of a JSON object, in the `serde_json` crate.
#[verifier::external_type_specification]
#[verifier::external_body]
#[verifier::reject_recursive_types(K)]
#[verifier::reject_recursive_types(V)]
pub struct ExMembers<K, V>(serde_json::Map<K, V>);

/// A JSON document made of objects and whole numbers.
pub enum Json {
    Number(u64),
    Object(Map<Seq<char>, Json>),
}

/// The document that a JSON value holds. Nothing is said of values that hold anything but
/// objects and whole numbers.
pub uninterp spec fn json_of(value: Value) -> Json;

/// The members of a JSON object, by key.
pub uninterp spec fn members_of(members: serde_json::Map<String, Value>) -> Map<Seq<char>, Json>;

/// `Value::from` makes the JSON number of a whole number.
#[verifier::external_body]
pub(crate) fn number(n: u64) -> (value: Value)
    ensures
        json_of(value) == Json::Number(n),
{
    Value::from(n)
}

/// `Value::Object` makes the JSON object with the given members.
#[verifier::external_body]
pub(crate) fn object(members: serde_json::Map<String, Value>) -> (value: Value)
    ensures
        json_of(value) == Json::Object(members_of(members)),
{
    Value::Object(members)
}

/// `serde_json::Map::new` makes an object without members.
pub assume_specification[ serde_json::Map::<String, Value>::new ]() -> (members: serde_json::Map<
    String,
    Value,
>)
    ensures
        (members_of(members) == Map::<Seq<char>, Json>::empty()),
;

/// `serde_json::Map::insert` sets the member under a key. Nothing is said of the value that it
/// hands back.
pub assume_specification[ serde_json::Map::<String, Value>::insert ](
    members: &mut serde_json::Map<String, Value>,
    member: String,
    value: Value,
) -> (replaced: Option<Value>)
    ensures
        members_of(*final(members)) == members_of(*old(members)).insert(member@, json_of(value)),
;

} // verus!
