//! JSON request bodies: objects of the JSON library, filled member by member.

use vstd::prelude::*;

verus! {

/// The value type of the JSON library.
#[verifier::external_type_specification]
#[verifier::external_body]
pub struct ExJsonValue(serde_json::Value);

/// What a member of a request body holds.
pub enum Member {
    /// An integer number.
    Integer(int),
    /// A string.
    Text(Seq<char>),
    /// An array of integer numbers.
    IntegerList(Seq<int>),
    /// Any other JSON value.
    Other,
}

/// The members of a JSON object, by key; `None` for a value that is not an
/// object. Every key of the object is a key of the map.
pub uninterp spec fn object_members(value: serde_json::Value) -> Option<Map<Seq<char>, Member>>;

/// The numbers of a list as mathematical integers.
pub open spec fn integers(numbers: Seq<i64>) -> Seq<int> {
    numbers.map_values(|n: i64| n as int)
}

/// The members with `value` under `key`, when there is a value.
pub open spec fn put(members: Map<Seq<char>, Member>, key: Seq<char>, value: Option<Member>) -> Map<
    Seq<char>,
    Member,
> {
    match value {
        Some(v) => members.insert(key, v),
        None => members,
    }
}

/// An optional number as a member.
pub open spec fn integer_member(value: Option<u32>) -> Option<Member> {
    match value {
        Some(n) => Some(Member::Integer(n as int)),
        None => None,
    }
}

/// An optional string as a member.
pub open spec fn text_member(value: Option<String>) -> Option<Member> {
    match value {
        Some(s) => Some(Member::Text(s@)),
        None => None,
    }
}

/// An optional string slice as a member.
pub open spec fn str_member(value: Option<&str>) -> Option<Member> {
    match value {
        Some(s) => Some(Member::Text(s@)),
        None => None,
    }
}

/// `serde_json::Map::new`, wrapped as `Value::Object`: an object without
/// members.
#[verifier::external_body]
pub(crate) fn empty_object() -> (object: serde_json::Value)
    ensures
        object_members(object) == Some(Map::<Seq<char>, Member>::empty()),
{
    serde_json::Value::Object(serde_json::Map::new())
}

/// `serde_json::Map::insert` with a number made by `Value::from`: the object
/// holds the number under `key`, in place of what was there; its other
/// members are unchanged.
#[verifier::external_body]
pub(crate) fn set_integer(object: &mut serde_json::Value, key: &str, number: i64)
    requires
        object_members(*old(object)) is Some,
    ensures
        object_members(*final(object)) == Some(
            object_members(*old(object))->0.insert(key@, Member::Integer(number as int)),
        ),
{
    if let serde_json::Value::Object(members) = object {
        members.insert(key.to_owned(), serde_json::Value::from(number));
    }
}

/// `serde_json::Map::insert` with a string made by `Value::from`: the object
/// holds the string under `key`, in place of what was there; its other
/// members are unchanged.
#[verifier::external_body]
pub(crate) fn set_text(object: &mut serde_json::Value, key: &str, text: &str)
    requires
        object_members(*old(object)) is Some,
    ensures
        object_members(*final(object)) == Some(
            object_members(*old(object))->0.insert(key@, Member::Text(text@)),
        ),
{
    if let serde_json::Value::Object(members) = object {
        members.insert(key.to_owned(), serde_json::Value::from(text));
    }
}

/// `serde_json::Map::insert` with an array made by `Value::from`: the object
/// holds the numbers, in order, under `key`, in place of what was there; its
/// other members are unchanged.
#[verifier::external_body]
pub(crate) fn set_integer_list(object: &mut serde_json::Value, key: &str, numbers: &[i64])
    requires
        object_members(*old(object)) is Some,
    ensures
        object_members(*final(object)) == Some(
            object_members(*old(object))->0.insert(key@, Member::IntegerList(integers(numbers@))),
        ),
{
    if let serde_json::Value::Object(members) = object {
        members.insert(key.to_owned(), serde_json::Value::from(numbers));
    }
}

/// Sets `key` to the number, when there is one.
pub(crate) fn set_optional_u32(object: &mut serde_json::Value, key: &str, value: Option<u32>)
    requires
        object_members(*old(object)) is Some,
    ensures
        object_members(*final(object)) == Some(
            put(object_members(*old(object))->0, key@, integer_member(value)),
        ),
{
    if let Some(n) = value {
        set_integer(object, key, n as i64);
    }
}

/// Sets `key` to the string, when there is one.
pub(crate) fn set_optional_text(object: &mut serde_json::Value, key: &str, value: &Option<String>)
    requires
        object_members(*old(object)) is Some,
    ensures
        object_members(*final(object)) == Some(
            put(object_members(*old(object))->0, key@, text_member(*value)),
        ),
{
    if let Some(text) = value {
        set_text(object, key, text.as_str());
    }
}

/// Sets `key` to the string, when there is one.
pub(crate) fn set_optional_str(object: &mut serde_json::Value, key: &str, value: Option<&str>)
    requires
        object_members(*old(object)) is Some,
    ensures
        object_members(*final(object)) == Some(
            put(object_members(*old(object))->0, key@, str_member(value)),
        ),
{
    if let Some(text) = value {
        set_text(object, key, text);
    }
}

} // verus!
