//! The size of a picture, written `<width>x<height>`.

use vstd::prelude::*;

use crate::decode::{option_view, DecodeError, DecodeFailure, Expected, Shape};
use crate::json::{Json, JsonValue};
use crate::text::{
    chars_of, decimal, lemma_decimal, lemma_digits_free_of, lemma_split_join, lemma_split_single,
    parse_unsigned, push_decimal, split, split_chars, unsigned_of,
};

verus! {

/// Width and height in pixels.
#[derive(Clone, Copy, Debug, Default, PartialEq, Eq, Structural, Hash)]
pub struct Resolution {
    pub width: u32,
    pub height: u32,
}

/// The text of a resolution: width, an `x`, height.
pub open spec fn resolution_text(r: Resolution) -> Seq<char> {
    decimal(r.width as nat) + seq!['x'] + decimal(r.height as nat)
}

/// The resolution that `text` spells: exactly two numerals with an `x`
/// between them, each within `u32`.
pub open spec fn resolution_of_text(text: Seq<char>) -> Option<Resolution> {
    let parts = split(text, 'x');
    if parts.len() == 2 {
        match (unsigned_of(parts[0], u32::MAX as nat), unsigned_of(parts[1], u32::MAX as nat)) {
            (Some(w), Some(h)) => Some(Resolution { width: w as u32, height: h as u32 }),
            _ => None,
        }
    } else {
        None
    }
}

/// The resolution that a JSON string spells.
pub open spec fn resolution_of(value: JsonValue) -> Result<Resolution, DecodeFailure> {
    match value {
        JsonValue::Text(text) => match resolution_of_text(text) {
            Some(r) => Ok(r),
            None => Err(DecodeFailure::Malformed { shape: Shape::Resolution, text }),
        },
        _ => Err(DecodeFailure::Unexpected { expected: Expected::Text }),
    }
}

/// An optional member as a resolution.
pub open spec fn opt_resolution(found: Option<JsonValue>) -> Result<
    Option<Resolution>,
    DecodeFailure,
> {
    match found {
        Some(value) => match resolution_of(value) {
            Ok(r) => Ok(Some(r)),
            Err(e) => Err(e),
        },
        None => Ok(None),
    }
}

/// The text of a resolution reads back as that resolution.
pub proof fn lemma_resolution_round_trip(r: Resolution)
    ensures
        resolution_of_text(resolution_text(r)) == Some(r),
        resolution_of(JsonValue::Text(resolution_text(r))) == Ok::<Resolution, DecodeFailure>(r),
{
    let w = decimal(r.width as nat);
    let h = decimal(r.height as nat);
    lemma_decimal(r.width as nat);
    lemma_decimal(r.height as nat);
    lemma_digits_free_of(w, 'x');
    lemma_digits_free_of(h, 'x');
    lemma_split_join(w, 'x', h);
    lemma_split_single(h, 'x');
}

impl Resolution {
    /// Reads a resolution from its text. Anything but two numerals within
    /// `u32` around a single `x` is refused, with the text in the error.
    pub fn from_str(text: &str) -> (out: Result<Resolution, DecodeError>)
        ensures
            match out {
                Ok(r) => resolution_of_text(text@) == Some(r),
                Err(e) => resolution_of_text(text@) is None && e@ == (DecodeFailure::Malformed {
                    shape: Shape::Resolution,
                    text: text@,
                }),
            },
    {
        let chars = chars_of(text);
        let parts = split_chars(&chars, 'x');
        if parts.len() == 2 {
            let width = parse_unsigned(&parts[0], 0xffff_ffff);
            let height = parse_unsigned(&parts[1], 0xffff_ffff);
            match (width, height) {
                (Some(w), Some(h)) => {
                    return Ok(Resolution { width: w as u32, height: h as u32 });
                },
                _ => {},
            }
        }
        Err(DecodeError::Malformed { shape: Shape::Resolution, text: text.to_owned() })
    }

    /// The text of this resolution.
    pub fn to_text(&self) -> (out: String)
        ensures
            out@ == resolution_text(*self),
            resolution_of_text(out@) == Some(*self),
    {
        let mut out = String::new();
        push_decimal(&mut out, self.width as u64);
        out.push('x');
        push_decimal(&mut out, self.height as u64);
        proof {
            assert(out@ =~= resolution_text(*self));
            lemma_resolution_round_trip(*self);
        }
        out
    }

    /// Decodes a resolution from a JSON string.
    pub fn from_json(value: &Json) -> (out: Result<Resolution, DecodeError>)
        ensures
            match out {
                Ok(r) => resolution_of(value@) == Ok::<Resolution, DecodeFailure>(r),
                Err(e) => resolution_of(value@) == Err::<Resolution, DecodeFailure>(e@),
            },
    {
        match value {
            Json::Text(text) => Resolution::from_str(text.as_str()),
            _ => Err(DecodeError::Unexpected { expected: Expected::Text }),
        }
    }

    /// Encodes this resolution as a JSON string.
    pub fn to_json(&self) -> (out: Json)
        ensures
            out@ == JsonValue::Text(resolution_text(*self)),
            resolution_of(out@) == Ok::<Resolution, DecodeFailure>(*self),
    {
        Json::Text(self.to_text())
    }

    /// Reads an optional member as a resolution.
    pub fn read_opt(found: Option<&Json>) -> (out: Result<Option<Resolution>, DecodeError>)
        ensures
            match out {
                Ok(r) => opt_resolution(option_view(found)) == Ok::<
                    Option<Resolution>,
                    DecodeFailure,
                >(r),
                Err(e) => opt_resolution(option_view(found)) == Err::<
                    Option<Resolution>,
                    DecodeFailure,
                >(e@),
            },
    {
        match found {
            Some(value) => match Resolution::from_json(value) {
                Ok(r) => Ok(Some(r)),
                Err(e) => Err(e),
            },
            None => Ok(None),
        }
    }

    /// An optional resolution as an optional JSON string.
    pub fn opt_to_json(value: Option<Resolution>) -> (out: Option<Json>)
        ensures
            option_view(out) == match value {
                Some(r) => Some(JsonValue::Text(resolution_text(r))),
                None => None,
            },
    {
        match value {
            Some(r) => Some(r.to_json()),
            None => None,
        }
    }
}

impl core::str::FromStr for Resolution {
    type Err = DecodeError;

    fn from_str(text: &str) -> (out: Result<Resolution, DecodeError>)
        ensures
            match out {
                Ok(r) => resolution_of_text(text@) == Some(r),
                Err(e) => resolution_of_text(text@) is None && e@ == (DecodeFailure::Malformed {
                    shape: Shape::Resolution,
                    text: text@,
                }),
            },
    {
        Resolution::from_str(text)
    }
}

} // verus!
