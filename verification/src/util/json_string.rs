//! JSON values that travel as the text of a JSON string.

use vstd::prelude::*;

use crate::decode::{option_view, outcome, DecodeError, DecodeFailure, Expected};
use crate::json::{json_of_text, text_of_json, Json, JsonValue};

verus! {

/// The value that a JSON string holds as text, given what reading the text
/// of a string gives.
pub open spec fn unwrapped(input: JsonValue, parsed: Option<JsonValue>) -> Result<
    JsonValue,
    DecodeFailure,
> {
    match input {
        JsonValue::Text(_) => match parsed {
            Some(value) => Ok(value),
            None => Err(DecodeFailure::InvalidText),
        },
        _ => Err(DecodeFailure::Unexpected { expected: Expected::Text }),
    }
}

/// What reading the text of `input` gives, where `input` is a string.
pub open spec fn text_read(input: JsonValue) -> Option<JsonValue> {
    match input {
        JsonValue::Text(text) => json_of_text(text),
        _ => None,
    }
}

/// Serializes `value` as a JSON string: the string holds the text of `value`.
pub fn serialize(value: &Json) -> (out: Json)
    ensures
        out@ == JsonValue::Text(text_of_json(value@)),
{
    Json::Text(value.to_text())
}

/// Tells what a JSON string holds, given what reading its text gave.
pub fn deserialize_parsed(input: &Json, parsed: Option<Json>) -> (out: Result<Json, DecodeError>)
    ensures
        outcome(out) == unwrapped(input@, option_view(parsed)),
{
    match input {
        Json::Text(_) => match parsed {
            Some(value) => Ok(value),
            None => Err(DecodeError::InvalidText),
        },
        _ => Err(DecodeError::Unexpected { expected: Expected::Text }),
    }
}

/// Reads a string from `input` and reads its text as JSON. An input that is
/// not a string is refused as such, and text that is not JSON as
/// `InvalidText`.
pub fn deserialize(input: &Json) -> (out: Result<Json, DecodeError>)
    ensures
        outcome(out) == unwrapped(input@, text_read(input@)),
{
    let parsed = match input {
        Json::Text(text) => Json::from_text(text.as_str()),
        _ => None,
    };
    deserialize_parsed(input, parsed)
}

} // verus!
