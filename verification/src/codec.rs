//! JSON text, read and written by `serde_json`.

use crate::json::{Json, JsonModel, JsonNumber};
use vstd::prelude::*;

verus! {

/// `serde_json::Value`, carried from one call into `serde_json` to the next.
#[verifier::external_type_specification]
#[verifier::external_body]
pub struct ExValue(serde_json::Value);

/// `serde_json::Error`, which this crate takes for a plain refusal.
#[verifier::external_type_specification]
#[verifier::external_body]
pub struct ExError(serde_json::Error);

/// What `serde_json::from_str` reads from a text as a `serde_json::Value`;
/// `None` where it reports an error.
pub uninterp spec fn parsed_json(text: Seq<char>) -> Option<JsonModel>;

/// What a `serde_json::Value` holds.
pub uninterp spec fn value_model(value: serde_json::Value) -> JsonModel;

/// The text that `serde_json::to_string` writes for a `serde_json::Value`;
/// `None` where it reports an error.
pub uninterp spec fn value_text(value: serde_json::Value) -> Option<Seq<char>>;

/// The text that `serde_json::to_string` writes for the `serde_json::Value`
/// with the given content; `None` where no such value can be made or the
/// writing reports an error.
pub uninterp spec fn encoded_json(json: JsonModel) -> Option<Seq<char>>;

/// Calls `serde_json::from_str` for a `serde_json::Value`. Claimed: whether it
/// succeeds, and what the value holds, depend on the text alone.
#[verifier::external_body]
fn read_value(text: &str) -> (read: Result<serde_json::Value, serde_json::Error>)
    ensures
        match read {
            Ok(value) => parsed_json(text@) == Some(value_model(value)),
            Err(_) => parsed_json(text@) is None,
        },
{
    serde_json::from_str::<serde_json::Value>(text)
}

/// Copies a `serde_json::Value` into a [`Json`], variant by variant; a number
/// by `Number::as_u64` and its `Display` text, an object's members in the
/// order in which `Map::iter` gives them.
#[verifier::external_body]
fn json_from_value(value: &serde_json::Value) -> (json: Json)
    ensures
        json@ == value_model(*value),
{
    match value {
        serde_json::Value::Null => Json::Null,
        serde_json::Value::Bool(b) => Json::Bool(*b),
        serde_json::Value::Number(n) => Json::Number(
            JsonNumber { unsigned: n.as_u64(), literal: n.to_string() },
        ),
        serde_json::Value::String(s) => Json::String(s.clone()),
        serde_json::Value::Array(items) => Json::Array(items.iter().map(json_from_value).collect()),
        serde_json::Value::Object(map) => Json::Object(
            map.iter().map(|(k, v)| (k.clone(), json_from_value(v))).collect(),
        ),
    }
}

/// Builds the `serde_json::Value` with the content of a [`Json`], variant by
/// variant; a number by `Number::from_str` on its literal, an object by
/// collecting its members into a `Map`. Claimed: whether it succeeds, and what
/// `serde_json::to_string` writes for the value, depend on the content alone.
#[verifier::external_body]
fn value_from_json(json: &Json) -> (made: Result<serde_json::Value, serde_json::Error>)
    ensures
        match made {
            Ok(value) => value_text(value) == encoded_json(json@),
            Err(_) => encoded_json(json@) is None,
        },
{
    Ok(match json {
        Json::Null => serde_json::Value::Null,
        Json::Bool(b) => serde_json::Value::Bool(*b),
        Json::Number(n) => serde_json::Value::Number(n.literal.parse()?),
        Json::String(s) => serde_json::Value::String(s.clone()),
        Json::Array(items) => serde_json::Value::Array(
            items.iter().map(value_from_json).collect::<Result<_, _>>()?,
        ),
        Json::Object(entries) => serde_json::Value::Object(
            entries.iter().map(|(k, v)| Ok((k.clone(), value_from_json(v)?))).collect::<Result<_, serde_json::Error>>()?,
        ),
    })
}

/// Calls `serde_json::to_string`. Claimed: whether it succeeds, and the text,
/// depend on the value alone.
#[verifier::external_body]
fn write_value(value: &serde_json::Value) -> (written: Result<String, serde_json::Error>)
    ensures
        match written {
            Ok(text) => value_text(*value) == Some(text@),
            Err(_) => value_text(*value) is None,
        },
{
    serde_json::to_string(value)
}

/// Reads a JSON text.
pub fn parse_json(text: &str) -> (parsed: Option<Json>)
    ensures
        match parsed {
            Some(json) => parsed_json(text@) == Some(json@),
            None => parsed_json(text@) is None,
        },
{
    match read_value(text) {
        Ok(value) => Some(json_from_value(&value)),
        Err(_) => None,
    }
}

/// Writes a value as JSON text.
pub fn encode_json(json: &Json) -> (text: Option<String>)
    ensures
        match text {
            Some(t) => encoded_json(json@) == Some(t@),
            None => encoded_json(json@) is None,
        },
{
    match value_from_json(json) {
        Ok(value) => match write_value(&value) {
            Ok(text) => Some(text),
            Err(_) => None,
        },
        Err(_) => None,
    }
}

} // verus!
