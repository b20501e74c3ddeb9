//! Universally unique identifiers, held by their 128-bit value.

use vstd::prelude::*;

use crate::decode::{DecodeError, DecodeFailure, Shape};
use crate::json::{Json, JsonValue};

verus! {

/// A UUID. Two are equal when their 128-bit values are.
#[derive(Clone, Copy, Debug, PartialEq, Eq, Structural, Hash)]
pub struct Uuid {
    pub value: u128,
}

/// The value of the UUID that `text` spells, if it spells one: 32
/// hexadecimal digits, plain, hyphenated in groups of 8-4-4-4-12, or
/// hyphenated behind `urn:uuid:`.
pub uninterp spec fn uuid_of_text(text: Seq<char>) -> Option<u128>;

/// The hyphenated lower-case spelling of the UUID with this value.
pub uninterp spec fn hyphenated(value: u128) -> Seq<char>;

/// `uuid::Uuid::parse_str`, then `as_u128`: the value of the UUID that
/// `text` spells. The contract only names the result.
#[verifier::external_body]
fn parse_uuid(text: &str) -> (out: Option<u128>)
    ensures
        out == uuid_of_text(text@),
{
    ::uuid::Uuid::parse_str(text).ok().map(|id| id.as_u128())
}

/// `uuid::Uuid::from_u128`, then `to_hyphenated` and `to_string`: the
/// hyphenated spelling, which `parse_str` is documented to read back.
#[verifier::external_body]
fn format_uuid(value: u128) -> (out: String)
    ensures
        out@ == hyphenated(value),
        uuid_of_text(out@) == Some(value),
{
    ::uuid::Uuid::from_u128(value).to_hyphenated().to_string()
}

/// The UUID that a JSON string spells.
pub open spec fn uuid_of(value: JsonValue) -> Result<Uuid, DecodeFailure> {
    match value {
        JsonValue::Text(text) => match uuid_of_text(text) {
            Some(v) => Ok(Uuid { value: v }),
            None => Err(DecodeFailure::Malformed { shape: Shape::Uuid, text }),
        },
        _ => Err(DecodeFailure::Unexpected { expected: crate::decode::Expected::Text }),
    }
}

/// The hyphenated spelling of `id` reads back as `id`. The `uuid` crate
/// documents this of every UUID; here it is known of a UUID once its
/// spelling was made.
pub open spec fn reads_back(id: Uuid) -> bool {
    uuid_of_text(hyphenated(id.value)) == Some(id.value)
}

impl Uuid {
    /// The UUID of value zero.
    pub fn nil() -> (id: Uuid)
        ensures
            id.value == 0,
    {
        Uuid { value: 0 }
    }

    /// The UUID with this value.
    pub fn from_u128(value: u128) -> (id: Uuid)
        ensures
            id.value == value,
    {
        Uuid { value }
    }

    /// The value of this UUID.
    pub fn as_u128(&self) -> (value: u128)
        ensures
            value == self.value,
    {
        self.value
    }

    /// Reads a UUID from one of its spellings.
    pub fn parse_str(text: &str) -> (out: Option<Uuid>)
        ensures
            out == match uuid_of_text(text@) {
                Some(v) => Some(Uuid { value: v }),
                None => None,
            },
    {
        match parse_uuid(text) {
            Some(value) => Some(Uuid { value }),
            None => None,
        }
    }

    /// The hyphenated spelling of this UUID. Reading it gives the UUID back.
    pub fn to_hyphenated_string(&self) -> (out: String)
        ensures
            out@ == hyphenated(self.value),
            reads_back(*self),
    {
        format_uuid(self.value)
    }

    /// Decodes a UUID from a JSON string.
    pub fn from_json(value: &Json) -> (out: Result<Uuid, DecodeError>)
        ensures
            match out {
                Ok(id) => uuid_of(value@) == Ok::<Uuid, DecodeFailure>(id),
                Err(e) => uuid_of(value@) == Err::<Uuid, DecodeFailure>(e@),
            },
    {
        match value {
            Json::Text(text) => match Uuid::parse_str(text.as_str()) {
                Some(id) => Ok(id),
                None => Err(DecodeError::Malformed { shape: Shape::Uuid, text: text.clone() }),
            },
            _ => Err(DecodeError::Unexpected { expected: crate::decode::Expected::Text }),
        }
    }

    /// Encodes this UUID as a JSON string, hyphenated.
    pub fn to_json(&self) -> (out: Json)
        ensures
            out@ == JsonValue::Text(hyphenated(self.value)),
            reads_back(*self),
    {
        Json::Text(self.to_hyphenated_string())
    }
}

} // verus!
