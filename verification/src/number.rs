//! Numbers with a fractional part, held by their literal.

use vstd::prelude::*;

use crate::decode::{
    number_of, opt_number, option_view, optional_outcome, outcome, DecodeError, DecodeFailure,
    Expected,
};
use crate::json::{Json, JsonValue};

verus! {

/// A number that may have a fractional part, such as an angle in degrees.
///
/// It is held by its JSON literal, for instance `30.0`, and is carried
/// through as it was given; two are equal when their literals are.
#[derive(Clone, Debug, PartialEq, Eq, Hash)]
pub struct Number {
    pub literal: String,
}

impl View for Number {
    type V = Seq<char>;

    open spec fn view(&self) -> Seq<char> {
        self.literal@
    }
}

impl Number {
    /// Decodes a number from a JSON number, keeping its literal.
    pub fn from_json(value: &Json) -> (out: Result<Number, DecodeError>)
        ensures
            outcome(out) == number_of(value@),
    {
        match value {
            Json::Number(literal) => Ok(Number { literal: literal.clone() }),
            _ => Err(DecodeError::Unexpected { expected: Expected::Number }),
        }
    }

    /// Encodes this number as a JSON number.
    pub fn to_json(&self) -> (out: Json)
        ensures
            out@ == JsonValue::Number(self@),
            number_of(out@) == Ok::<Seq<char>, DecodeFailure>(self@),
    {
        Json::Number(self.literal.clone())
    }

    /// Reads an optional member as a number.
    pub fn read_opt(found: Option<&Json>) -> (out: Result<Option<Number>, DecodeError>)
        ensures
            optional_outcome(out) == opt_number(option_view(found)),
    {
        match found {
            Some(value) => match Number::from_json(value) {
                Ok(n) => Ok(Some(n)),
                Err(e) => Err(e),
            },
            None => Ok(None),
        }
    }

    /// An optional number as an optional JSON number.
    pub fn opt_to_json(value: &Option<Number>) -> (out: Option<Json>)
        ensures
            option_view(out) == match value {
                Some(n) => Some(JsonValue::Number(n@)),
                None => None,
            },
    {
        match value {
            Some(n) => Some(n.to_json()),
            None => None,
        }
    }

    /// A copy of this number.
    pub fn duplicate(&self) -> (copy: Number)
        ensures
            copy@ == self@,
    {
        Number { literal: self.literal.clone() }
    }
}

} // verus!
