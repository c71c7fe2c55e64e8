//! The YAML reader that the settings file goes through: `serde_yaml`, behind
//! contracts that are believed, not proved.
//!
//! A parsed document stays a `serde_yaml::Value`. What the library reads from
//! one is named by the spec functions below, one for each method it calls.

use vstd::prelude::*;

verus! {

#[verifier::external_type_specification]
#[verifier::external_body]
pub struct ExValue(serde_yaml::Value);

#[verifier::external_type_specification]
#[verifier::external_body]
pub struct ExError(serde_yaml::Error);

/// The document that `serde_yaml::from_str` reads from a text, `None` where
/// it rejects the text.
pub uninterp spec fn yaml_parsed(text: Seq<char>) -> Option<serde_yaml::Value>;

/// What `Value::is_null` answers.
pub uninterp spec fn yaml_is_null(value: serde_yaml::Value) -> bool;

/// What `Value::is_mapping` answers.
pub uninterp spec fn yaml_is_mapping(value: serde_yaml::Value) -> bool;

/// What `Value::get` finds under a string key.
pub uninterp spec fn yaml_entry(value: serde_yaml::Value, key: Seq<char>) -> Option<
    serde_yaml::Value,
>;

/// What `Value::as_str` gives.
pub uninterp spec fn yaml_text(value: serde_yaml::Value) -> Option<Seq<char>>;

/// What `Value::as_u64` gives.
pub uninterp spec fn yaml_u64(value: serde_yaml::Value) -> Option<u64>;

/// Calls `serde_yaml::from_str` for a `serde_yaml::Value`. Believed: the
/// outcome depends on the text alone, so it is `yaml_parsed` of the text.
#[verifier::external_body]
pub(crate) fn parse_document(text: &str) -> (r: Result<serde_yaml::Value, serde_yaml::Error>)
    ensures
        match r {
            Ok(doc) => yaml_parsed(text@) == Some(doc),
            Err(_) => yaml_parsed(text@) is None,
        },
{
    serde_yaml::from_str::<serde_yaml::Value>(text)
}

/// Calls `Display` of `serde_yaml::Error` through `to_string`. Nothing is
/// claimed of the text.
#[verifier::external_body]
pub(crate) fn error_message(error: &serde_yaml::Error) -> String {
    error.to_string()
}

/// Calls `serde_yaml::Value::is_null`. Believed: the answer is `yaml_is_null`
/// of the value.
#[verifier::external_body]
pub(crate) fn is_null(value: &serde_yaml::Value) -> (r: bool)
    ensures
        r == yaml_is_null(*value),
{
    value.is_null()
}

/// Calls `serde_yaml::Value::is_mapping`. Believed: the answer is
/// `yaml_is_mapping` of the value.
#[verifier::external_body]
pub(crate) fn is_mapping(value: &serde_yaml::Value) -> (r: bool)
    ensures
        r == yaml_is_mapping(*value),
{
    value.is_mapping()
}

/// Calls `serde_yaml::Value::get` with a string key. Believed: what it finds
/// is `yaml_entry` of the value and the key.
#[verifier::external_body]
pub(crate) fn entry<'a>(value: &'a serde_yaml::Value, key: &str) -> (r: Option<
    &'a serde_yaml::Value,
>)
    ensures
        match r {
            Some(found) => yaml_entry(*value, key@) == Some(*found),
            None => yaml_entry(*value, key@) is None,
        },
{
    value.get(key)
}

/// Calls `serde_yaml::Value::as_str`. Believed: what it gives is `yaml_text`
/// of the value.
#[verifier::external_body]
pub(crate) fn as_text<'a>(value: &'a serde_yaml::Value) -> (r: Option<&'a str>)
    ensures
        match r {
            Some(s) => yaml_text(*value) == Some(s@),
            None => yaml_text(*value) is None,
        },
{
    value.as_str()
}

/// Calls `serde_yaml::Value::as_u64`. Believed: what it gives is `yaml_u64`
/// of the value.
#[verifier::external_body]
pub(crate) fn as_unsigned(value: &serde_yaml::Value) -> (r: Option<u64>)
    ensures
        r == yaml_u64(*value),
{
    value.as_u64()
}

} // verus!
