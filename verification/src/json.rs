//! JSON documents. A document is a `serde_json::Value`; what the library
//! reads from one and does to one goes through the functions of this module,
//! whose contracts speak of the document by the names declared here.

use serde_json::Value;
use vstd::prelude::*;

verus! {

/// `serde_json::Value`: a JSON value. Proofs see nothing inside it; what
/// they know of one, they know by the names below.
#[verifier::external_type_specification]
#[verifier::external_body]
pub struct ExValue(serde_json::Value);

/// The compact text that `serde_json` writes for a value.
pub uninterp spec fn json_text(value: Value) -> Seq<char>;

/// The member that a value holds under a key: `None` unless the value is an
/// object with that key.
pub uninterp spec fn json_member(value: Value, key: Seq<char>) -> Option<Value>;

/// The text of a value that is a JSON string.
pub uninterp spec fn json_str(value: Value) -> Option<Seq<char>>;

/// The items of a value that is a JSON array.
pub uninterp spec fn json_items(value: Value) -> Option<Seq<Value>>;

/// Whether a value is a JSON object.
pub uninterp spec fn json_is_object(value: Value) -> bool;

/// Whether a value is JSON's `null`.
pub uninterp spec fn json_is_null(value: Value) -> bool;

/// The JSON string with the given text.
pub uninterp spec fn json_string(text: Seq<char>) -> Value;

/// The truth value of a value that is JSON's `true` or `false`.
pub uninterp spec fn json_bool(value: Value) -> Option<bool>;

/// JSON's `true` or `false`.
pub uninterp spec fn json_of_bool(truth: bool) -> Value;

/// A value that may be absent: `null` stands for an absent one.
pub uninterp spec fn json_optional(value: Option<Value>) -> Value;

/// The JSON array of the given items.
pub uninterp spec fn json_array(items: Seq<Value>) -> Value;

/// The JSON object collected from keys and members.
pub uninterp spec fn json_object(pairs: Seq<(Seq<char>, Value)>) -> Value;

/// A value after the member under `key` is set; `null` counts as the empty
/// object.
pub uninterp spec fn json_with(value: Value, key: Seq<char>, member: Value) -> Value;

/// A value after the member under `key` is removed, if it is an object:
/// otherwise the value itself.
pub uninterp spec fn json_without(value: Value, key: Seq<char>) -> Value;

/// The value that a JSON text parses to.
pub uninterp spec fn json_parsed(text: Seq<char>) -> Option<Value>;

/// Keys by their characters.
pub open spec fn pair_views(pairs: Seq<(String, Value)>) -> Seq<(Seq<char>, Value)> {
    pairs.map_values(|pair: (String, Value)| (pair.0@, pair.1))
}

/// `serde_json::Value`'s `Display`: the value as compact JSON text.
#[verifier::external_body]
pub(crate) fn to_text(value: &Value) -> (text: String)
    ensures
        text@ == json_text(*value),
{
    value.to_string()
}

/// `serde_json::from_str` for a `Value`; `None` where it reports an error.
#[verifier::external_body]
pub(crate) fn parse(text: &str) -> (value: Option<Value>)
    ensures
        value == json_parsed(text@),
{
    serde_json::from_str(text).ok()
}

/// `serde_json::Value::get` with a string key, the member cloned.
#[verifier::external_body]
pub(crate) fn member(value: &Value, key: &str) -> (found: Option<Value>)
    ensures
        found == json_member(*value, key@),
{
    value.get(key).cloned()
}

/// `serde_json::Value::as_str`, the text copied.
#[verifier::external_body]
pub(crate) fn as_text(value: &Value) -> (text: Option<String>)
    ensures
        text is Some == json_str(*value) is Some,
        text matches Some(t) ==> t@ == json_str(*value).unwrap(),
{
    match value.as_str() {
        Some(text) => Some(text.to_owned()),
        None => None,
    }
}

/// `serde_json::Value::as_array`, the items cloned.
#[verifier::external_body]
pub(crate) fn items(value: &Value) -> (list: Option<Vec<Value>>)
    ensures
        list is Some == json_items(*value) is Some,
        list matches Some(l) ==> l@ == json_items(*value).unwrap(),
{
    value.as_array().cloned()
}

/// `serde_json::Value::is_object`.
#[verifier::external_body]
pub(crate) fn is_object(value: &Value) -> (yes: bool)
    ensures
        yes == json_is_object(*value),
{
    value.is_object()
}

/// `serde_json::Value::is_null`.
#[verifier::external_body]
pub(crate) fn is_null(value: &Value) -> (yes: bool)
    ensures
        yes == json_is_null(*value),
{
    value.is_null()
}

/// `serde_json::Value::String`: a JSON string, which `as_str` reads back,
/// and which is no array.
#[verifier::external_body]
pub(crate) fn string_value(text: &str) -> (value: Value)
    ensures
        value == json_string(text@),
        json_str(value) == Some(text@),
        json_items(value) is None,
{
    Value::String(text.to_owned())
}

/// `serde_json::Value::Bool`: a JSON truth value, which `as_bool` reads
/// back.
#[verifier::external_body]
pub(crate) fn bool_value(truth: bool) -> (value: Value)
    ensures
        value == json_of_bool(truth),
        json_bool(value) == Some(truth),
{
    Value::Bool(truth)
}

/// `serde_json::Value::as_bool`.
#[verifier::external_body]
pub(crate) fn as_bool(value: &Value) -> (truth: Option<bool>)
    ensures
        truth == json_bool(*value),
{
    value.as_bool()
}

/// `serde_json::Value`'s `From<Option<Value>>`: the value itself, or `null`
/// for none. As every `null`, that one is no text, no array and no object,
/// and has no members.
#[verifier::external_body]
pub(crate) fn optional_value(value: Option<Value>) -> (made: Value)
    ensures
        made == json_optional(value),
        value matches Some(inner) ==> made == inner,
        value is None ==> json_is_null(made),
        value is None ==> json_str(made) is None && json_items(made) is None && !json_is_object(
            made,
        ),
        value is None ==> forall|key: Seq<char>| (#[trigger] json_member(made, key)) is None,
{
    Value::from(value)
}

/// `serde_json::Value::Array`: a JSON array, which `as_array` reads back.
#[verifier::external_body]
pub(crate) fn array_value(list: Vec<Value>) -> (value: Value)
    ensures
        value == json_array(list@),
        json_items(value) == Some(list@),
{
    Value::Array(list)
}

/// `serde_json::Map`'s `FromIterator`, wrapped in `Value::Object`: an object
/// that holds, under each key that occurs in one pair only, the member of
/// that pair. As every object, it is no text and no array.
#[verifier::external_body]
pub(crate) fn object_of(pairs: Vec<(String, Value)>) -> (object: Value)
    ensures
        object == json_object(pair_views(pairs@)),
        json_is_object(object),
        json_str(object) is None && json_items(object) is None,
        forall|i: int|
            0 <= i < pairs@.len() && (forall|j: int|
                0 <= j < pairs@.len() && j != i ==> pairs@[j].0@ != pairs@[i].0@)
                ==> json_member(object, #[trigger] pairs@[i].0@) == Some(pairs@[i].1),
{
    Value::Object(pairs.into_iter().collect())
}

/// `serde_json::Value`'s `IndexMut` with a string key, as in
/// `value[key] = member`: it sets the member of an object, and turns `null`
/// into an object with that one member. The value must be an object or
/// `null`: on any other the call panics. The members under other keys stay
/// as they were. The last clause says that taking out again a member that
/// was not there before gives the object back as it was.
#[verifier::external_body]
pub(crate) fn set_member(value: &mut Value, key: &str, member: Value)
    requires
        json_is_object(*old(value)) || json_is_null(*old(value)),
    ensures
        *final(value) == json_with(*old(value), key@, member),
        json_is_object(*final(value)),
        json_member(*final(value), key@) == Some(member),
        forall|other: Seq<char>|
            other != key@ ==> #[trigger] json_member(*final(value), other) == json_member(
                *old(value),
                other,
            ),
        json_is_object(*old(value)) && json_member(*old(value), key@) is None ==> json_without(
            *final(value),
            key@,
        ) == *old(value),
{
    value[key] = member;
}

/// `serde_json::Map::remove` on the map of `Value::as_object_mut`: it takes
/// the member under `key` out of an object and returns it.
#[verifier::external_body]
pub(crate) fn take_member(value: &mut Value, key: &str) -> (taken: Option<Value>)
    ensures
        taken == json_member(*old(value), key@),
        *final(value) == json_without(*old(value), key@),
{
    match value.as_object_mut() {
        Some(object) => object.remove(key),
        None => None,
    }
}

} // verus!
