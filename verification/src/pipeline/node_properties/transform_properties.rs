//! Geometric changes to a picture: mirroring, cropping, scaling, turning.

use vstd::prelude::*;

use crate::decode::{
    aliased, find_aliased, find_present, json_of_opt_u32, opt_number, opt_u32_aliased,
    option_view, outcome, push_some, read_opt_u32_aliased, unsigned_json, with_some, DecodeError,
    DecodeFailure, Expected, Family, Shape,
};
use crate::named::{
    lemma_named_round_trip, opt_name_json, opt_named, read_opt_named, write_opt_named, Named,
};
use crate::json::{
    lemma_member_push, member, members_view, present, Json, JsonValue, Member, Members,
};
use crate::number::Number;
use crate::pipeline::resolution::{
    lemma_resolution_round_trip, opt_resolution, resolution_text, Resolution,
};
use crate::text::{
    chars_of, decimal, lemma_decimal, lemma_digits_free_of, lemma_split_join, lemma_split_single,
    parse_unsigned, push_decimal, split, split_chars, unsigned_of,
};

verus! {

/// The axis along which a picture is mirrored.
#[derive(Clone, Copy, Debug, PartialEq, Eq, Structural, Hash)]
pub enum FlipDirection {
    Horizontal,
    Vertical,
}

impl Named for FlipDirection {
    open spec fn name(self) -> Seq<char> {
        match self {
            FlipDirection::Horizontal => "horizontal"@,
            FlipDirection::Vertical => "vertical"@,
        }
    }

    open spec fn named(name: Seq<char>) -> Option<FlipDirection> {
        if name == "horizontal"@ {
            Some(FlipDirection::Horizontal)
        } else if name == "vertical"@ {
            Some(FlipDirection::Vertical)
        } else {
            None
        }
    }

    open spec fn family() -> Family {
        Family::FlipDirection
    }

    proof fn lemma_name_reads_back(self) {
        reveal_strlit("horizontal");
        reveal_strlit("vertical");
        assert("vertical"@.len() == 8);
    }

    fn as_str(self) -> (out: &'static str) {
        match self {
            FlipDirection::Horizontal => "horizontal",
            FlipDirection::Vertical => "vertical",
        }
    }

    fn from_name(name: &str) -> (out: Option<FlipDirection>) {
        if name.eq("horizontal") {
            Some(FlipDirection::Horizontal)
        } else if name.eq("vertical") {
            Some(FlipDirection::Vertical)
        } else {
            None
        }
    }

    fn kind() -> (out: Family) {
        Family::FlipDirection
    }
}

/// How many pixels to cut off each side of a picture.
#[derive(Clone, Copy, Debug, Default, PartialEq, Eq, Structural, Hash)]
pub struct Crop {
    /// Number of pixels to crop from the top.
    pub top: usize,
    /// Number of pixels to crop from the bottom.
    pub bottom: usize,
    /// Number of pixels to crop from the left.
    pub left: usize,
    /// Number of pixels to crop from the right.
    pub right: usize,
}

/// The text of a crop region: left, right, top and bottom, with colons between.
pub open spec fn crop_text(c: Crop) -> Seq<char> {
    decimal(c.left as nat) + seq![':'] + decimal(c.right as nat) + seq![':'] + decimal(
        c.top as nat,
    ) + seq![':'] + decimal(c.bottom as nat)
}

/// The crop region that `text` spells: exactly four numerals with colons
/// between them, each within `usize`, in the order left, right, top, bottom.
pub open spec fn crop_of_text(text: Seq<char>) -> Option<Crop> {
    let parts = split(text, ':');
    if parts.len() == 4 {
        match (
            unsigned_of(parts[0], usize::MAX as nat),
            unsigned_of(parts[1], usize::MAX as nat),
            unsigned_of(parts[2], usize::MAX as nat),
            unsigned_of(parts[3], usize::MAX as nat),
        ) {
            (Some(left), Some(right), Some(top), Some(bottom)) => Some(
                Crop {
                    top: top as usize,
                    bottom: bottom as usize,
                    left: left as usize,
                    right: right as usize,
                },
            ),
            _ => None,
        }
    } else {
        None
    }
}

/// The crop region that a JSON string spells.
pub open spec fn crop_of(value: JsonValue) -> Result<Crop, DecodeFailure> {
    match value {
        JsonValue::Text(text) => match crop_of_text(text) {
            Some(c) => Ok(c),
            None => Err(DecodeFailure::Malformed { shape: Shape::Crop, text }),
        },
        _ => Err(DecodeFailure::Unexpected { expected: Expected::Text }),
    }
}

/// An optional member as a crop region.
pub open spec fn opt_crop(found: Option<JsonValue>) -> Result<Option<Crop>, DecodeFailure> {
    match found {
        Some(value) => match crop_of(value) {
            Ok(c) => Ok(Some(c)),
            Err(e) => Err(e),
        },
        None => Ok(None),
    }
}

/// An optional member under one of two names, as a crop region.
pub open spec fn opt_crop_aliased(found: Result<Option<JsonValue>, DecodeFailure>) -> Result<
    Option<Crop>,
    DecodeFailure,
> {
    match found {
        Ok(value) => opt_crop(value),
        Err(e) => Err(e),
    }
}

/// The text of a crop region reads back as that region.
pub proof fn lemma_crop_round_trip(c: Crop)
    ensures
        crop_of_text(crop_text(c)) == Some(c),
        crop_of(JsonValue::Text(crop_text(c))) == Ok::<Crop, DecodeFailure>(c),
{
    let l = decimal(c.left as nat);
    let r = decimal(c.right as nat);
    let t = decimal(c.top as nat);
    let b = decimal(c.bottom as nat);
    lemma_decimal(c.left as nat);
    lemma_decimal(c.right as nat);
    lemma_decimal(c.top as nat);
    lemma_decimal(c.bottom as nat);
    lemma_digits_free_of(l, ':');
    lemma_digits_free_of(r, ':');
    lemma_digits_free_of(t, ':');
    lemma_digits_free_of(b, ':');
    lemma_split_single(b, ':');
    lemma_split_join(t, ':', b);
    lemma_split_join(r, ':', t + seq![':'] + b);
    lemma_split_join(l, ':', r + seq![':'] + t + seq![':'] + b);
    assert(crop_text(c) =~= l + seq![':'] + (r + seq![':'] + t + seq![':'] + b));
    assert(r + seq![':'] + t + seq![':'] + b =~= r + seq![':'] + (t + seq![':'] + b));
}

impl Crop {
    /// Reads a crop region from its text. Anything but four numerals within
    /// `usize` with colons between them is refused, with the text in the error.
    pub fn from_str(text: &str) -> (out: Result<Crop, DecodeError>)
        ensures
            match out {
                Ok(c) => crop_of_text(text@) == Some(c),
                Err(e) => crop_of_text(text@) is None && e@ == (DecodeFailure::Malformed {
                    shape: Shape::Crop,
                    text: text@,
                }),
            },
    {
        let chars = chars_of(text);
        let parts = split_chars(&chars, ':');
        if parts.len() == 4 {
            let max: u64 = usize::MAX as u64;
            let left = parse_unsigned(&parts[0], max);
            let right = parse_unsigned(&parts[1], max);
            let top = parse_unsigned(&parts[2], max);
            let bottom = parse_unsigned(&parts[3], max);
            match (left, right, top, bottom) {
                (Some(l), Some(r), Some(t), Some(b)) => {
                    return Ok(
                        Crop {
                            top: t as usize,
                            bottom: b as usize,
                            left: l as usize,
                            right: r as usize,
                        },
                    );
                },
                _ => {},
            }
        }
        Err(DecodeError::Malformed { shape: Shape::Crop, text: text.to_owned() })
    }

    /// The text of this crop region.
    pub fn to_text(&self) -> (out: String)
        ensures
            out@ == crop_text(*self),
            crop_of_text(out@) == Some(*self),
    {
        let mut out = String::new();
        push_decimal(&mut out, self.left as u64);
        out.push(':');
        push_decimal(&mut out, self.right as u64);
        out.push(':');
        push_decimal(&mut out, self.top as u64);
        out.push(':');
        push_decimal(&mut out, self.bottom as u64);
        proof {
            assert(out@ =~= crop_text(*self));
            lemma_crop_round_trip(*self);
        }
        out
    }

    /// Decodes a crop region from a JSON string.
    pub fn from_json(value: &Json) -> (out: Result<Crop, DecodeError>)
        ensures
            match out {
                Ok(c) => crop_of(value@) == Ok::<Crop, DecodeFailure>(c),
                Err(e) => crop_of(value@) == Err::<Crop, DecodeFailure>(e@),
            },
    {
        match value {
            Json::Text(text) => Crop::from_str(text.as_str()),
            _ => Err(DecodeError::Unexpected { expected: Expected::Text }),
        }
    }

    /// Encodes this crop region as a JSON string.
    pub fn to_json(&self) -> (out: Json)
        ensures
            out@ == JsonValue::Text(crop_text(*self)),
            crop_of(out@) == Ok::<Crop, DecodeFailure>(*self),
    {
        Json::Text(self.to_text())
    }

    /// Reads an optional member as a crop region.
    pub fn read_opt(found: Option<&Json>) -> (out: Result<Option<Crop>, DecodeError>)
        ensures
            match out {
                Ok(c) => opt_crop(option_view(found)) == Ok::<Option<Crop>, DecodeFailure>(c),
                Err(e) => opt_crop(option_view(found)) == Err::<Option<Crop>, DecodeFailure>(e@),
            },
    {
        match found {
            Some(value) => match Crop::from_json(value) {
                Ok(c) => Ok(Some(c)),
                Err(e) => Err(e),
            },
            None => Ok(None),
        }
    }

    /// An optional crop region as an optional JSON string.
    pub fn opt_to_json(value: Option<Crop>) -> (out: Option<Json>)
        ensures
            option_view(out) == match value {
                Some(c) => Some(JsonValue::Text(crop_text(c))),
                None => None,
            },
    {
        match value {
            Some(c) => Some(c.to_json()),
            None => None,
        }
    }
}

impl core::str::FromStr for Crop {
    type Err = DecodeError;

    fn from_str(text: &str) -> (out: Result<Crop, DecodeError>)
        ensures
            match out {
                Ok(c) => crop_of_text(text@) == Some(c),
                Err(e) => crop_of_text(text@) is None && e@ == (DecodeFailure::Malformed {
                    shape: Shape::Crop,
                    text: text@,
                }),
            },
    {
        Crop::from_str(text)
    }
}

/// What a transform node does to the pictures that pass through it.
#[derive(Clone, Debug, PartialEq, Eq)]
pub struct TransformProperties {
    /// Framerate.
    pub framerate: Option<u32>,
    /// The desired resolution.
    pub resolution: Option<Resolution>,
    /// Rotation angle in degrees.
    pub rotation: Option<Number>,
    /// Flip direction.
    pub flip_direction: Option<FlipDirection>,
    /// Crop region.
    pub crop_region: Option<Crop>,
}

/// The mathematical value of a `TransformProperties`.
pub struct TransformView {
    pub framerate: Option<u32>,
    pub resolution: Option<Resolution>,
    pub rotation: Option<Seq<char>>,
    pub flip_direction: Option<FlipDirection>,
    pub crop_region: Option<Crop>,
}

impl View for TransformProperties {
    type V = TransformView;

    open spec fn view(&self) -> TransformView {
        TransformView {
            framerate: self.framerate,
            resolution: self.resolution,
            rotation: option_view(self.rotation),
            flip_direction: self.flip_direction,
            crop_region: self.crop_region,
        }
    }
}

/// `key` is one of the names under which a transform keeps a member.
pub open spec fn is_transform_key(key: Seq<char>) -> bool {
    key == "framerate"@ || key == "fps"@ || key == "resolution"@ || key == "rotation"@ || key
        == "flip_direction"@ || key == "crop_region"@ || key == "crop"@
}

/// The transform that the members of an object describe. The framerate may
/// come as `fps` and the crop region as `crop`; members that are absent or
/// `null` leave their part unset.
pub open spec fn transform_of(m: Members) -> Result<TransformView, DecodeFailure> {
    let framerate = opt_u32_aliased(aliased(m, "framerate"@, "fps"@));
    let resolution = opt_resolution(present(m, "resolution"@));
    let rotation = opt_number(present(m, "rotation"@));
    let flip_direction = opt_named::<FlipDirection>(present(m, "flip_direction"@));
    let crop_region = opt_crop_aliased(aliased(m, "crop_region"@, "crop"@));
    if framerate is Err {
        Err(framerate->Err_0)
    } else if resolution is Err {
        Err(resolution->Err_0)
    } else if rotation is Err {
        Err(rotation->Err_0)
    } else if flip_direction is Err {
        Err(flip_direction->Err_0)
    } else if crop_region is Err {
        Err(crop_region->Err_0)
    } else {
        Ok(
            TransformView {
                framerate: framerate->Ok_0,
                resolution: resolution->Ok_0,
                rotation: rotation->Ok_0,
                flip_direction: flip_direction->Ok_0,
                crop_region: crop_region->Ok_0,
            },
        )
    }
}

/// `base` and the members of a transform; a part that is unset adds nothing.
pub open spec fn transform_members(base: Members, t: TransformView) -> Members {
    let m = with_some(
        base,
        "framerate"@,
        match t.framerate {
            Some(n) => Some(unsigned_json(n as nat)),
            None => None,
        },
    );
    let m = with_some(
        m,
        "resolution"@,
        match t.resolution {
            Some(r) => Some(JsonValue::Text(resolution_text(r))),
            None => None,
        },
    );
    let m = with_some(
        m,
        "rotation"@,
        match t.rotation {
            Some(n) => Some(JsonValue::Number(n)),
            None => None,
        },
    );
    let m = with_some(m, "flip_direction"@, opt_name_json(t.flip_direction));
    with_some(
        m,
        "crop_region"@,
        match t.crop_region {
            Some(c) => Some(JsonValue::Text(crop_text(c))),
            None => None,
        },
    )
}

/// The lengths of the member names of a transform, which tell them apart.
pub proof fn lemma_transform_keys()
    ensures
        "type"@.len() == 4,
        "framerate"@.len() == 9,
        "fps"@.len() == 3,
        "resolution"@.len() == 10,
        "rotation"@.len() == 8,
        "flip_direction"@.len() == 14,
        "crop_region"@.len() == 11,
        "crop"@.len() == 4,
        "type"@[0] == 't',
        "crop"@[0] == 'c',
{
    reveal_strlit("type");
    reveal_strlit("framerate");
    reveal_strlit("fps");
    reveal_strlit("resolution");
    reveal_strlit("rotation");
    reveal_strlit("flip_direction");
    reveal_strlit("crop_region");
    reveal_strlit("crop");
}

/// A transform is read back from its members, whatever stands before them
/// under other names.
pub proof fn lemma_transform_round_trip(base: Members, t: TransformView)
    requires
        forall|key: Seq<char>| is_transform_key(key) ==> member(base, key) is None,
    ensures
        transform_of(transform_members(base, t)) == Ok::<TransformView, DecodeFailure>(t),
        forall|key: Seq<char>|
            !is_transform_key(key) ==> member(transform_members(base, t), key) == member(
                base,
                key,
            ),
{
    broadcast use lemma_member_push;

    lemma_transform_keys();
    assert(is_transform_key("framerate"@));
    assert(is_transform_key("fps"@));
    assert(is_transform_key("resolution"@));
    assert(is_transform_key("rotation"@));
    assert(is_transform_key("flip_direction"@));
    assert(is_transform_key("crop_region"@));
    assert(is_transform_key("crop"@));
    if t.framerate is Some {
        crate::decode::lemma_unsigned_json(t.framerate->Some_0 as nat, u32::MAX as nat);
    }
    if t.resolution is Some {
        lemma_resolution_round_trip(t.resolution->Some_0);
    }
    if t.flip_direction is Some {
        lemma_named_round_trip(t.flip_direction->Some_0);
    }
    if t.crop_region is Some {
        lemma_crop_round_trip(t.crop_region->Some_0);
    }
}

impl TransformProperties {
    /// Decodes a transform from the members of an object.
    pub fn from_members(members: &Vec<Member>) -> (out: Result<TransformProperties, DecodeError>)
        ensures
            outcome(out) == transform_of(members_view(members@)),
    {
        let framerate = read_opt_u32_aliased(members, "framerate", "fps")?;
        let resolution = Resolution::read_opt(find_present(members, "resolution"))?;
        let rotation = Number::read_opt(find_present(members, "rotation"))?;
        let flip_direction = read_opt_named::<FlipDirection>(
            find_present(members, "flip_direction"),
        )?;
        let crop_region = match find_aliased(members, "crop_region", "crop") {
            Ok(found) => Crop::read_opt(found)?,
            Err(e) => {
                return Err(e);
            },
        };
        Ok(TransformProperties { framerate, resolution, rotation, flip_direction, crop_region })
    }

    /// Appends the members of this transform to `members`.
    pub fn write_members(&self, members: &mut Vec<Member>)
        ensures
            members_view(final(members)@) == transform_members(members_view(old(members)@), self@),
    {
        push_some(members, "framerate", json_of_opt_u32(self.framerate));
        push_some(members, "resolution", Resolution::opt_to_json(self.resolution));
        push_some(members, "rotation", Number::opt_to_json(&self.rotation));
        push_some(members, "flip_direction", write_opt_named(self.flip_direction));
        push_some(members, "crop_region", Crop::opt_to_json(self.crop_region));
    }
}

impl Default for TransformProperties {
    /// A transform that changes nothing.
    fn default() -> (out: TransformProperties)
        ensures
            out.framerate is None,
            out.resolution is None,
            out.rotation is None,
            out.flip_direction is None,
            out.crop_region is None,
    {
        TransformProperties {
            framerate: None,
            resolution: None,
            rotation: None,
            flip_direction: None,
            crop_region: None,
        }
    }
}

} // verus!
