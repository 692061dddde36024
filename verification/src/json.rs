//! JSON values, as far as the library reads and writes them.
//!
//! Values are those of the `serde_json` crate.  The library looks at
//! whether one is a flag, a string or something else, and leaves parsing
//! and printing to the crate.

use serde_json::Value;
use vstd::prelude::*;

verus! {

/// `serde_json::Value`, a JSON value of any kind.  Nothing is known of
/// what one holds but what the functions below tell.
#[verifier::external_type_specification]
#[verifier::external_body]
pub struct ExValue(serde_json::Value);

/// `serde_json::Map`, the entries of a JSON object.
#[verifier::external_type_specification]
#[verifier::external_body]
#[verifier::reject_recursive_types(K)]
#[verifier::reject_recursive_types(V)]
pub struct ExMap<K, V>(serde_json::Map<K, V>);

/// `serde_json::Error`, why a text could not be parsed or a value not be
/// printed.
#[verifier::external_type_specification]
#[verifier::external_body]
pub struct ExJsonError(serde_json::Error);

/// What kind of value a JSON value is, with what a flag or a string
/// holds.
pub enum JsonKind {
    Null,
    Flag(bool),
    Number,
    Text(Seq<char>),
    Array,
    Object,
}

/// The kind of a value.
pub uninterp spec fn json_kind(value: Value) -> JsonKind;

/// The entries of an object by key and value, in the order in which the
/// object hands them out.
pub uninterp spec fn json_entries(object: serde_json::Map<String, Value>) -> Seq<
    (Seq<char>, Value),
>;

/// A value printed on one line, or `None` where it cannot be printed.
pub uninterp spec fn json_text(value: Value) -> Option<Seq<char>>;

/// A value printed over several lines, each level indented by `indent`,
/// as bytes; or `None` where it cannot be printed.
pub uninterp spec fn json_pretty(value: Value, indent: Seq<char>) -> Option<Seq<u8>>;

/// The value that a text stands for, or `None` where the text is not
/// JSON.
pub uninterp spec fn json_parse(text: Seq<char>) -> Option<Value>;

/// A value that was parsed, and null in place of one that was not.
pub uninterp spec fn json_or_null(parsed: Option<Value>) -> Value;

/// A value after the string `text` was stored in it under `key`.
pub uninterp spec fn json_with(value: Value, key: Seq<char>, text: Seq<char>) -> Value;

/// Whether a key can be stored in a value: in an object, and in null,
/// which then becomes an object.
pub open spec fn takes_keys(value: Value) -> bool {
    json_kind(value) is Null || json_kind(value) is Object
}

/// The models of a list of entries.
pub open spec fn entries_view(entries: Seq<(String, Value)>) -> Seq<(Seq<char>, Value)> {
    Seq::new(entries.len(), |i: int| (entries[i].0@, entries[i].1))
}

/// The flag of a boolean value.
pub open spec fn kind_flag(kind: JsonKind) -> Option<bool> {
    match kind {
        JsonKind::Flag(flag) => Some(flag),
        _ => None,
    }
}

/// The text of a string value.
pub open spec fn kind_text(kind: JsonKind) -> Option<Seq<char>> {
    match kind {
        JsonKind::Text(text) => Some(text),
        _ => None,
    }
}

/// Lists an object's entries.  Stands for `Map::iter`; keys and values
/// are copied out in the order of the iteration.
#[verifier::external_body]
pub(crate) fn entries(object: &serde_json::Map<String, Value>) -> (list: Vec<(String, Value)>)
    ensures
        entries_view(list@) == json_entries(*object),
{
    object.iter().map(|(key, value)| (key.clone(), value.clone())).collect()
}

/// Reads a flag.  Stands for `Value::as_bool`, which gives the flag of a
/// boolean value and nothing for any other.
#[verifier::external_body]
pub(crate) fn as_flag(value: &Value) -> (flag: Option<bool>)
    ensures
        flag == kind_flag(json_kind(*value)),
{
    value.as_bool()
}

/// Reads a string.  Stands for `Value::as_str`, which gives the text of a
/// string value and nothing for any other.
#[verifier::external_body]
pub(crate) fn as_text(value: &Value) -> (text: Option<String>)
    ensures
        crate::plan::text_view(text) == kind_text(json_kind(*value)),
{
    value.as_str().map(String::from)
}

/// Tells whether a value is null.  Stands for `Value::is_null`.
#[verifier::external_body]
pub(crate) fn is_null(value: &Value) -> (null: bool)
    ensures
        null == (json_kind(*value) is Null),
{
    value.is_null()
}

/// Tells whether a value is an object.  Stands for `Value::is_object`.
#[verifier::external_body]
pub(crate) fn is_object(value: &Value) -> (object: bool)
    ensures
        object == (json_kind(*value) is Object),
{
    value.is_object()
}

/// Prints a value on one line.  Stands for `serde_json::to_string`.
#[verifier::external_body]
pub(crate) fn to_text(value: &Value) -> (text: Result<String, serde_json::Error>)
    ensures
        text is Ok <==> json_text(*value) is Some,
        text matches Ok(printed) ==> json_text(*value) == Some(printed@),
{
    serde_json::to_string(value)
}

/// Prints a value over several lines.  Stands for `Value`'s
/// `Serialize::serialize` into a `Serializer::with_formatter` that writes
/// to memory, with a `PrettyFormatter::with_indent` of `indent`.
#[verifier::external_body]
pub(crate) fn to_pretty(value: &Value, indent: &str) -> (text: Result<Vec<u8>, serde_json::Error>)
    ensures
        text is Ok <==> json_pretty(*value, indent@) is Some,
        text matches Ok(printed) ==> json_pretty(*value, indent@) == Some(printed@),
{
    let mut out = Vec::new();
    let formatter = serde_json::ser::PrettyFormatter::with_indent(indent.as_bytes());
    let mut serializer = serde_json::Serializer::with_formatter(&mut out, formatter);
    serde::Serialize::serialize(value, &mut serializer).map(|_| out)
}

/// Parses a text.  Stands for `serde_json::from_str` with a `Value` as
/// its target.
#[verifier::external_body]
pub(crate) fn parse(text: &str) -> (value: Result<Value, serde_json::Error>)
    ensures
        value is Ok <==> json_parse(text@) is Some,
        value matches Ok(parsed) ==> json_parse(text@) == Some(parsed),
{
    serde_json::from_str(text)
}

/// The model of what parsing gave.
pub open spec fn parsed_view(parsed: Result<Value, serde_json::Error>) -> Option<Value> {
    match parsed {
        Ok(value) => Some(value),
        Err(_) => None,
    }
}

/// Takes null for a value that could not be parsed.  Stands for
/// `Result::unwrap_or_default`; the default of `Value` is null.
#[verifier::external_body]
pub(crate) fn or_null(parsed: Result<Value, serde_json::Error>) -> (value: Value)
    ensures
        value == json_or_null(parsed_view(parsed)),
        parsed matches Ok(given) ==> value == given,
        parsed is Err ==> json_kind(value) is Null,
{
    parsed.unwrap_or_default()
}

/// Stores a string under a key.  Stands for assigning through `Value`'s
/// index by a string, which turns null into an empty object first and
/// then adds the key to the object or replaces what it held.  On any
/// other kind of value the index panics, so those are left out.
#[verifier::external_body]
pub(crate) fn store(value: &mut Value, key: &str, text: &str)
    requires
        takes_keys(*old(value)),
    ensures
        *final(value) == json_with(*old(value), key@, text@),
        json_kind(*final(value)) is Object,
{
    value[key] = Value::String(text.to_string());
}

} // verus!
