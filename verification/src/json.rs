//! JSON documents: their mathematical model and the bindings to `serde_json`.
//!
//! Documents are held at run time as `serde_json::Value`. Verification sees
//! such a value only through [`json_of`], the document it stands for, and the
//! contracts below say what each `serde_json` operation does in terms of it.
//! None of those contracts is proved: they restate the behaviour of
//! `serde_json` (built without its `preserve_order` and `arbitrary_precision`
//! features) and are the assumptions that the rest of the crate rests on.

use vstd::prelude::*;

verus! {

/// A JSON document as a mathematical value.
///
/// A number is represented by the digits that `serde_json` prints for it, an
/// object by the mapping from its keys to its members.
pub enum Json {
    Null,
    Boolean(bool),
    Number(Seq<char>),
    Text(Seq<char>),
    List(Seq<Json>),
    Object(Map<Seq<char>, Json>),
}

impl Json {
    /// The member under `key`, if the document is an object that has one.
    pub open spec fn member(self, key: Seq<char>) -> Option<Json> {
        match self {
            Json::Object(members) => if members.contains_key(key) {
                Some(members[key])
            } else {
                None
            },
            _ => None,
        }
    }

    /// The member under `key`, or `null` where `member` finds none.
    pub open spec fn member_or_null(self, key: Seq<char>) -> Json {
        match self.member(key) {
            Some(found) => found,
            None => Json::Null,
        }
    }
}

/// The documents that a slice of values stands for, in order.
pub open spec fn documents(values: Seq<serde_json::Value>) -> Seq<Json> {
    Seq::new(values.len(), |i: int| json_of(values[i]))
}

/// An object without members.
pub open spec fn no_members() -> Map<Seq<char>, Json> {
    Map::empty()
}

#[verifier::external_type_specification]
#[verifier::external_body]
pub struct ExValue(serde_json::Value);

#[verifier::external_type_specification]
#[verifier::external_body]
pub struct ExError(serde_json::Error);

#[verifier::external_type_specification]
#[verifier::external_body]
#[verifier::reject_recursive_types(K)]
#[verifier::reject_recursive_types(V)]
pub struct ExObject<K, V>(serde_json::Map<K, V>);

/// The document that a `serde_json::Value` holds.
pub uninterp spec fn json_of(value: serde_json::Value) -> Json;

/// The members that a `serde_json::Map` holds, by key.
pub uninterp spec fn members_of(object: serde_json::Map<String, serde_json::Value>) -> Map<Seq<char>, Json>;

/// The message that a `serde_json::Error` displays.
pub uninterp spec fn error_text(error: serde_json::Error) -> Seq<char>;

/// What `serde_json::from_str` makes of a text: the document it denotes, or
/// the message of the error it is rejected with.
pub uninterp spec fn parsed(text: Seq<char>) -> Result<Json, Seq<char>>;

/// The single-line text that `serde_json::to_string` writes for a document:
/// its compact JSON.
pub uninterp spec fn compact_text(document: Json) -> Seq<char>;

/// The indented text that `serde_json::to_string_pretty` writes for a document.
pub uninterp spec fn pretty_text(document: Json) -> Seq<char>;

/// `serde_json::from_str` at type `Value`: reads one JSON document from the
/// whole of `text`, or rejects the text with an error. The outcome depends on
/// `text` alone.
#[verifier::external_body]
pub(crate) fn parse_value(text: &str) -> (outcome: Result<serde_json::Value, serde_json::Error>)
    ensures
        match outcome {
            Ok(value) => parsed(text@) matches Ok(document) && document == json_of(value),
            Err(error) => parsed(text@) matches Err(message) && message == error_text(error),
        },
{
    serde_json::from_str::<serde_json::Value>(text)
}

/// `Display` of `serde_json::Error`: the error's message.
#[verifier::external_body]
pub(crate) fn error_message(error: &serde_json::Error) -> (message: String)
    ensures
        message@ == error_text(*error),
{
    error.to_string()
}

/// `serde_json::to_string` on a `Value`: the document as single-line JSON.
/// The call succeeds on every value: the text is written into memory, where
/// no write fails, and the keys of an object are strings, so that neither of
/// the two causes of failure that `serde_json` names can occur.
#[verifier::external_body]
pub(crate) fn write_compact(value: &serde_json::Value) -> (outcome: Result<String, serde_json::Error>)
    ensures
        outcome is Ok,
        outcome matches Ok(text) ==> text@ == compact_text(json_of(*value)),
{
    serde_json::to_string(value)
}

/// `serde_json::to_string_pretty` on a `Value`: the document as indented
/// JSON. The call succeeds on every value, for the reasons given for
/// `serde_json::to_string`.
#[verifier::external_body]
pub(crate) fn write_pretty(value: &serde_json::Value) -> (outcome: Result<String, serde_json::Error>)
    ensures
        outcome is Ok,
        outcome matches Ok(text) ==> text@ == pretty_text(json_of(*value)),
{
    serde_json::to_string_pretty(value)
}

/// `Display` of `serde_json::Value`, through `to_string`: the value as
/// single-line JSON, from the same writer that `serde_json::to_string` runs,
/// so that the two texts are one. A boolean displays as `true` or `false`, a
/// number as the digits that stand for it in [`Json::Number`].
#[verifier::external_body]
pub(crate) fn display_value(value: &serde_json::Value) -> (text: String)
    ensures
        text@ == compact_text(json_of(*value)),
        json_of(*value) == Json::Boolean(true) ==> text@ == "true"@,
        json_of(*value) == Json::Boolean(false) ==> text@ == "false"@,
        json_of(*value) matches Json::Number(digits) ==> text@ == digits,
{
    value.to_string()
}

/// `serde_json::Value::get` with a string key: the member under `key` where
/// the value is an object that holds the key, nothing otherwise.
#[verifier::external_body]
pub(crate) fn value_get<'a>(value: &'a serde_json::Value, key: &str) -> (found: Option<&'a serde_json::Value>)
    ensures
        match found {
            Some(member) => json_of(*value).member(key@) == Some(json_of(*member)),
            None => json_of(*value).member(key@) is None,
        },
{
    value.get(key)
}

/// Indexing a `serde_json::Value` by a string key: the member under `key`, and
/// `null` where `get` would find nothing.
#[verifier::external_body]
pub(crate) fn value_index<'a>(value: &'a serde_json::Value, key: &str) -> (member: &'a serde_json::Value)
    ensures
        json_of(*member) == json_of(*value).member_or_null(key@),
{
    &value[key]
}

/// `serde_json::Value::as_str`: the characters of a string, nothing for any
/// other kind of value.
#[verifier::external_body]
pub(crate) fn value_as_str<'a>(value: &'a serde_json::Value) -> (found: Option<&'a str>)
    ensures
        match found {
            Some(text) => json_of(*value) == Json::Text(text@),
            None => !(json_of(*value) is Text),
        },
{
    value.as_str()
}

/// `serde_json::Value::as_array`: the elements of an array, nothing for any
/// other kind of value.
#[verifier::external_body]
pub(crate) fn value_as_array<'a>(value: &'a serde_json::Value) -> (found: Option<&'a Vec<serde_json::Value>>)
    ensures
        match found {
            Some(elements) => json_of(*value) == Json::List(documents(elements@)),
            None => !(json_of(*value) is List),
        },
{
    value.as_array()
}

/// `serde_json::Value::is_null`.
#[verifier::external_body]
pub(crate) fn value_is_null(value: &serde_json::Value) -> (null: bool)
    ensures
        null == (json_of(*value) is Null),
{
    value.is_null()
}

/// `serde_json::Value::String`: the JSON string with the characters of `text`.
#[verifier::external_body]
pub(crate) fn value_from_text(text: String) -> (value: serde_json::Value)
    ensures
        json_of(value) == Json::Text(text@),
{
    serde_json::Value::String(text)
}

/// `serde_json::Value::Bool`.
#[verifier::external_body]
pub(crate) fn value_from_bool(flag: bool) -> (value: serde_json::Value)
    ensures
        json_of(value) == Json::Boolean(flag),
{
    serde_json::Value::Bool(flag)
}

/// `serde_json::Value::Object`: the JSON object with the members of `object`.
#[verifier::external_body]
pub(crate) fn value_from_object(object: serde_json::Map<String, serde_json::Value>) -> (value: serde_json::Value)
    ensures
        json_of(value) == Json::Object(members_of(object)),
{
    serde_json::Value::Object(object)
}

/// `serde_json::Map::new`: an object without members.
#[verifier::external_body]
pub(crate) fn object_new() -> (object: serde_json::Map<String, serde_json::Value>)
    ensures
        members_of(object) == no_members(),
{
    serde_json::Map::new()
}

/// `serde_json::Map::insert`: binds `key` to `value`, in place of an earlier
/// member under that key where there was one.
#[verifier::external_body]
pub(crate) fn object_insert(
    object: &mut serde_json::Map<String, serde_json::Value>,
    key: String,
    value: serde_json::Value,
)
    ensures
        members_of(*final(object)) == members_of(*old(object)).insert(key@, json_of(value)),
{
    object.insert(key, value);
}

} // verus!
