//! Constants that go by a name on the wire.

use vstd::prelude::*;

use crate::decode::{option_view, DecodeError, DecodeFailure, Expected, Family};
use crate::json::{Json, JsonValue};

verus! {

/// A constant that is written as its name. A constant may be read under
/// several names, of which exactly one is the name it is written under.
pub trait Named: Copy + Sized {
    /// The name under which the constant is written.
    spec fn name(self) -> Seq<char>;

    /// The constant that `name` stands for, if it stands for one. Older
    /// spellings are read too.
    spec fn named(name: Seq<char>) -> Option<Self>;

    /// The family that the constant belongs to.
    spec fn family() -> Family;

    /// Every constant is read back from the name it is written under.
    proof fn lemma_name_reads_back(self)
        ensures
            Self::named(self.name()) == Some(self),
    ;

    /// The name under which the constant is written.
    fn as_str(self) -> (out: &'static str)
        ensures
            out@ == self.name(),
    ;

    /// The constant that `name` stands for, if it stands for one.
    fn from_name(name: &str) -> (out: Option<Self>)
        ensures
            out == Self::named(name@),
    ;

    /// The family that the constant belongs to.
    fn kind() -> (out: Family)
        ensures
            out == Self::family(),
    ;
}

/// The constant that a JSON string names. A string that is none of the names
/// is refused by its value, with the family that it was to be taken from.
pub open spec fn named_of<T: Named>(value: JsonValue) -> Result<T, DecodeFailure> {
    match value {
        JsonValue::Text(text) => match T::named(text) {
            Some(v) => Ok(v),
            None => Err(DecodeFailure::UnknownVariant { family: T::family(), value: text }),
        },
        _ => Err(DecodeFailure::Unexpected { expected: Expected::Text }),
    }
}

/// An optional member as a constant.
pub open spec fn opt_named<T: Named>(found: Option<JsonValue>) -> Result<Option<T>, DecodeFailure> {
    match found {
        Some(value) => match named_of::<T>(value) {
            Ok(v) => Ok(Some(v)),
            Err(e) => Err(e),
        },
        None => Ok(None),
    }
}

/// An optional constant as an optional JSON string.
pub open spec fn opt_name_json<T: Named>(value: Option<T>) -> Option<JsonValue> {
    match value {
        Some(v) => Some(JsonValue::Text(v.name())),
        None => None,
    }
}

/// A constant is read back from the JSON string of its name; whatever older
/// spellings are read, only this one is written.
pub proof fn lemma_named_round_trip<T: Named>(value: T)
    ensures
        named_of::<T>(JsonValue::Text(value.name())) == Ok::<T, DecodeFailure>(value),
        opt_named::<T>(opt_name_json(Some(value))) == Ok::<Option<T>, DecodeFailure>(Some(value)),
{
    value.lemma_name_reads_back();
}

/// Decodes a constant from a JSON string.
pub fn read_named<T: Named>(value: &Json) -> (out: Result<T, DecodeError>)
    ensures
        match out {
            Ok(v) => named_of::<T>(value@) == Ok::<T, DecodeFailure>(v),
            Err(e) => named_of::<T>(value@) == Err::<T, DecodeFailure>(e@),
        },
{
    match value {
        Json::Text(text) => match T::from_name(text.as_str()) {
            Some(v) => Ok(v),
            None => Err(DecodeError::UnknownVariant { family: T::kind(), value: text.clone() }),
        },
        _ => Err(DecodeError::Unexpected { expected: Expected::Text }),
    }
}

/// Encodes a constant as a JSON string, under the name it is written under.
pub fn write_named<T: Named>(value: T) -> (out: Json)
    ensures
        out@ == JsonValue::Text(value.name()),
        named_of::<T>(out@) == Ok::<T, DecodeFailure>(value),
{
    proof {
        lemma_named_round_trip(value);
    }
    Json::Text(value.as_str().to_owned())
}

/// Decodes an optional member as a constant.
pub fn read_opt_named<T: Named>(found: Option<&Json>) -> (out: Result<Option<T>, DecodeError>)
    ensures
        match out {
            Ok(v) => opt_named::<T>(option_view(found)) == Ok::<Option<T>, DecodeFailure>(v),
            Err(e) => opt_named::<T>(option_view(found)) == Err::<Option<T>, DecodeFailure>(e@),
        },
{
    match found {
        Some(value) => match read_named::<T>(value) {
            Ok(v) => Ok(Some(v)),
            Err(e) => Err(e),
        },
        None => Ok(None),
    }
}

/// Encodes an optional constant as an optional JSON string.
pub fn write_opt_named<T: Named>(value: Option<T>) -> (out: Option<Json>)
    ensures
        option_view(out) == opt_name_json(value),
{
    match value {
        Some(v) => Some(write_named(v)),
        None => None,
    }
}

} // verus!
