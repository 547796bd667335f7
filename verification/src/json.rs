//! JSON values of the `serde_json` crate, and what they hold.
use vstd::prelude::*;

verus! {

/// What a JSON value holds. A number is given by its decimal text.
pub enum Json {
    Null,
    Bool(bool),
    Number(Seq<char>),
    Text(Seq<char>),
    Array(Seq<Json>),
    Object(Members),
}

/// The members of a JSON object, each a key and its value, in their order.
pub type Members = Seq<(Seq<char>, Json)>;

/// Whether there is a member with this key.
pub open spec fn has_key(members: Members, key: Seq<char>) -> bool {
    exists|i: int| 0 <= i < members.len() && (#[trigger] members[i]).0 == key
}

/// The members after the key was given the value: in the place of the value that
/// it had before, or else as the last member.
pub open spec fn inserted(members: Members, key: Seq<char>, value: Json) -> Members {
    if has_key(members, key) {
        members.map_values(
            |member: (Seq<char>, Json)|
                if member.0 == key {
                    (key, value)
                } else {
                    member
                },
        )
    } else {
        members.push((key, value))
    }
}

/// Whether no key occurs twice.
pub open spec fn distinct_keys(members: Members) -> bool {
    forall|i: int, j: int|
        0 <= i < j < members.len() ==> (#[trigger] members[i]).0 != (#[trigger] members[j]).0
}

/// `serde_json::Value`, a JSON value.
#[verifier::external_type_specification]
#[verifier::external_body]
pub struct ExValue(serde_json::Value);

/// `serde_json::Map`, the members of a JSON object.
#[verifier::external_type_specification]
#[verifier::external_body]
#[verifier::reject_recursive_types(K)]
#[verifier::reject_recursive_types(V)]
pub struct ExMap<K, V>(serde_json::Map<K, V>);

/// `serde_json::Error`, the error of a failed serialization.
#[verifier::external_type_specification]
#[verifier::external_body]
pub struct ExError(serde_json::Error);

/// What a `serde_json::Value` holds.
pub uninterp spec fn json(value: serde_json::Value) -> Json;

/// The members that a `serde_json::Map` holds, in the order in which it walks
/// them. With the feature `preserve_order`, which this crate asks for, that is
/// the order in which the keys were first inserted.
pub uninterp spec fn members(
    map: serde_json::Map<String, serde_json::Value>,
) -> Members;

/// `serde_json::Map::new`: the new map has no members.
#[verifier::external_body]
pub(crate) fn new_map() -> (map: serde_json::Map<String, serde_json::Value>)
    ensures
        members(map) == Members::empty(),
{
    serde_json::Map::new()
}

/// `serde_json::Map::insert`, with the feature `preserve_order`: the key now has
/// the value, in the place of the one that it had before, or else as the last
/// member. The other members stay as they are.
#[verifier::external_body]
pub(crate) fn insert_member(
    map: &mut serde_json::Map<String, serde_json::Value>,
    key: String,
    value: serde_json::Value,
)
    ensures
        members(*final(map)) == inserted(members(*old(map)), key@, json(value)),
{
    map.insert(key, value);
}

/// `serde_json::Map::is_empty`: true exactly when the map has no members.
#[verifier::external_body]
pub(crate) fn has_no_members(map: &serde_json::Map<String, serde_json::Value>) -> (empty: bool)
    ensures
        empty == (members(*map) == Members::empty()),
{
    map.is_empty()
}

/// `serde_json::Map::clone`: the clone has the same members in the same order.
#[verifier::external_body]
pub(crate) fn clone_map(map: &serde_json::Map<String, serde_json::Value>) -> (copy:
    serde_json::Map<String, serde_json::Value>)
    ensures
        members(copy) == members(*map),
{
    map.clone()
}

/// `serde_json::Value::String`: the JSON string with this text.
#[verifier::external_body]
pub(crate) fn string_value(text: String) -> (value: serde_json::Value)
    ensures
        json(value) == Json::Text(text@),
{
    serde_json::Value::String(text)
}

/// `serde_json::Value::Array`: the JSON array of these values, in this order.
#[verifier::external_body]
pub(crate) fn array_value(items: Vec<serde_json::Value>) -> (value: serde_json::Value)
    ensures
        json(value) == Json::Array(items@.map_values(|item: serde_json::Value| json(item))),
{
    serde_json::Value::Array(items)
}

/// `serde_json::Value::Object`: the JSON object with these members in
/// this order.
#[verifier::external_body]
pub(crate) fn object_value(map: serde_json::Map<String, serde_json::Value>) -> (value:
    serde_json::Value)
    ensures
        json(value) == Json::Object(members(map)),
{
    serde_json::Value::Object(map)
}

/// Whether a `serde_json::Error` was caused by a failure to read or write, as its
/// method `is_io` tells.
pub uninterp spec fn is_io(error: serde_json::Error) -> bool;

/// The text that a `serde_json::Error` displays. That of a failure to read or
/// write comes from the operating system or the stream, and is not given by this.
pub uninterp spec fn error_text(error: serde_json::Error) -> Seq<char>;

/// Whether this is a text that the error displays. Any error but that of a failure
/// to read or write has only one.
pub open spec fn displays(error: serde_json::Error, text: Seq<char>) -> bool {
    &&& exists|shown: String| #[trigger]
        vstd::string::to_string_from_display_ensures(&error, shown) && shown@ == text
    &&& !is_io(error) ==> text == error_text(error)
}

/// `serde_json::Error::is_io`.
#[verifier::external_body]
fn has_io_cause(error: &serde_json::Error) -> (io: bool)
    ensures
        io == is_io(*error),
{
    error.is_io()
}

/// `to_string` by the `Display` of `serde_json::Error`: an error that is no
/// failure to read or write displays one text, which is made of its message and
/// of the line and the column that it holds.
#[verifier::external_body]
fn own_text(error: &serde_json::Error) -> (text: String)
    requires
        !is_io(*error),
    ensures
        vstd::string::to_string_from_display_ensures(error, text),
        text@ == error_text(*error),
{
    error.to_string()
}

/// Returns the text that the error displays.
pub(crate) fn error_message(error: &serde_json::Error) -> (text: String)
    ensures
        displays(*error, text@),
{
    if has_io_cause(error) {
        error.to_string()
    } else {
        own_text(error)
    }
}

} // verus!
