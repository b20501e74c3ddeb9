//! What can go wrong when a JSON value is decoded, and the small readers
//! that every decoder of a record is made of.

use vstd::prelude::*;

use crate::json::{find_member, member, members_view, present, Json, JsonValue, Member, Members};
use crate::text::{all_digits, chars_of, concat, digits_value, parse_unsigned};

verus! {

/// The kind of value that a decoder asked for and did not get.
#[derive(Clone, Copy, Debug, PartialEq, Eq, Structural)]
pub enum Expected {
    Text,
    Unsigned16,
    Unsigned32,
    Number,
    Array,
    Object,
}

/// The compact text formats that travel inside JSON strings.
#[derive(Clone, Copy, Debug, PartialEq, Eq, Structural)]
pub enum Shape {
    /// `<width>x<height>`
    Resolution,
    /// `<left>:<right>:<top>:<bottom>`
    Crop,
    /// `<node>.<pad>`
    SinkPad,
    /// A UUID in one of its usual spellings.
    Uuid,
    /// An absolute URL.
    Url,
}

/// The closed sets of names that a tag or a named constant is taken from.
#[derive(Clone, Copy, Debug, PartialEq, Eq, Structural)]
pub enum Family {
    NodeType,
    SourceType,
    FlipDirection,
    RotateDirection,
    Capability,
    Architecture,
    Format,
    ModelColorFormat,
    ModelNetworkMode,
    ModelInputOrder,
    ClusterMode,
    DeploymentState,
    Severity,
    GstErrorDomain,
    FileCloudStatus,
    StreamType,
    StreamSource,
    StreamStatus,
}

/// Why a value could not be decoded.
#[derive(Clone, Debug, PartialEq, Eq)]
pub enum DecodeError {
    /// A member that must be there is not.
    MissingField { field: String },
    /// A member was given under two of its names.
    DuplicateField { field: String },
    /// A value is of another kind, or out of the range, that was asked for.
    Unexpected { expected: Expected },
    /// A string does not follow its compact format.
    Malformed { shape: Shape, text: String },
    /// A tag or a named constant is none of the names of its family.
    UnknownVariant { family: Family, value: String },
    /// A wire leads to a node that the pipeline does not hold.
    DanglingReference { node: String },
    /// The definition is `null` where one must be given.
    NullDefinition,
    /// The definition is a string that does not hold JSON.
    InvalidText,
}

/// The mathematical value of a `DecodeError`.
pub enum DecodeFailure {
    MissingField { field: Seq<char> },
    DuplicateField { field: Seq<char> },
    Unexpected { expected: Expected },
    Malformed { shape: Shape, text: Seq<char> },
    UnknownVariant { family: Family, value: Seq<char> },
    DanglingReference { node: Seq<char> },
    NullDefinition,
    InvalidText,
}

impl View for DecodeError {
    type V = DecodeFailure;

    open spec fn view(&self) -> DecodeFailure {
        match self {
            DecodeError::MissingField { field } => DecodeFailure::MissingField { field: field@ },
            DecodeError::DuplicateField { field } => DecodeFailure::DuplicateField {
                field: field@,
            },
            DecodeError::Unexpected { expected } => DecodeFailure::Unexpected {
                expected: *expected,
            },
            DecodeError::Malformed { shape, text } => DecodeFailure::Malformed {
                shape: *shape,
                text: text@,
            },
            DecodeError::UnknownVariant { family, value } => DecodeFailure::UnknownVariant {
                family: *family,
                value: value@,
            },
            DecodeError::DanglingReference { node } => DecodeFailure::DanglingReference {
                node: node@,
            },
            DecodeError::NullDefinition => DecodeFailure::NullDefinition,
            DecodeError::InvalidText => DecodeFailure::InvalidText,
        }
    }
}

/// The view of an optional value.
pub open spec fn option_view<T: View>(value: Option<T>) -> Option<T::V> {
    match value {
        Some(v) => Some(v@),
        None => None,
    }
}

/// The views of a list of values.
pub open spec fn list_view<T: View>(values: Seq<T>) -> Seq<T::V> {
    Seq::new(values.len(), |i: int| values[i]@)
}

/// The view of the outcome of a decoder.
pub open spec fn outcome<T: View>(result: Result<T, DecodeError>) -> Result<T::V, DecodeFailure> {
    match result {
        Ok(v) => Ok(v@),
        Err(e) => Err(e@),
    }
}

/// The view of the outcome of a decoder of an optional value.
pub open spec fn optional_outcome<T: View>(result: Result<Option<T>, DecodeError>) -> Result<
    Option<T::V>,
    DecodeFailure,
> {
    match result {
        Ok(v) => Ok(option_view(v)),
        Err(e) => Err(e@),
    }
}

// ---------------------------------------------------------------------------
// Readers of single values

/// The text of a JSON string.
pub open spec fn text_of(value: JsonValue) -> Result<Seq<char>, DecodeFailure> {
    match value {
        JsonValue::Text(s) => Ok(s),
        _ => Err(DecodeFailure::Unexpected { expected: Expected::Text }),
    }
}

/// The number that a JSON number written with digits alone stands for, where
/// it is at most `max`.
pub open spec fn unsigned_in(value: JsonValue, max: nat) -> Option<nat> {
    match value {
        JsonValue::Number(literal) => if literal.len() > 0 && all_digits(literal) && digits_value(
            literal,
        ) <= max {
            Some(digits_value(literal))
        } else {
            None
        },
        _ => None,
    }
}

/// A JSON number as a `u32`.
pub open spec fn u32_of(value: JsonValue) -> Result<u32, DecodeFailure> {
    match unsigned_in(value, u32::MAX as nat) {
        Some(n) => Ok(n as u32),
        None => Err(DecodeFailure::Unexpected { expected: Expected::Unsigned32 }),
    }
}

/// A JSON number as a `u16`.
pub open spec fn u16_of(value: JsonValue) -> Result<u16, DecodeFailure> {
    match unsigned_in(value, u16::MAX as nat) {
        Some(n) => Ok(n as u16),
        None => Err(DecodeFailure::Unexpected { expected: Expected::Unsigned16 }),
    }
}

/// The literal of a JSON number.
pub open spec fn number_of(value: JsonValue) -> Result<Seq<char>, DecodeFailure> {
    match value {
        JsonValue::Number(literal) => Ok(literal),
        _ => Err(DecodeFailure::Unexpected { expected: Expected::Number }),
    }
}

/// Reads a JSON string.
pub fn read_text(value: &Json) -> (out: Result<String, DecodeError>)
    ensures
        outcome(out) == text_of(value@),
{
    match value {
        Json::Text(s) => Ok(s.clone()),
        _ => Err(DecodeError::Unexpected { expected: Expected::Text }),
    }
}

/// Reads a JSON number written with digits alone that is at most `max`.
pub fn read_unsigned(value: &Json, max: u64) -> (out: Option<u64>)
    ensures
        out == match unsigned_in(value@, max as nat) {
            Some(n) => Some(n as u64),
            None => None,
        },
{
    match value {
        Json::Number(literal) => {
            let chars = chars_of(literal.as_str());
            if chars.len() > 0 && chars[0] == '+' {
                None
            } else {
                parse_unsigned(&chars, max)
            }
        },
        _ => None,
    }
}

/// Reads a JSON number as a `u32`.
pub fn read_u32(value: &Json) -> (out: Result<u32, DecodeError>)
    ensures
        outcome(out) == u32_of(value@),
{
    match read_unsigned(value, 0xffff_ffff) {
        Some(n) => Ok(n as u32),
        None => Err(DecodeError::Unexpected { expected: Expected::Unsigned32 }),
    }
}

/// Reads a JSON number as a `u16`.
pub fn read_u16(value: &Json) -> (out: Result<u16, DecodeError>)
    ensures
        outcome(out) == u16_of(value@),
{
    match read_unsigned(value, 0xffff) {
        Some(n) => Ok(n as u16),
        None => Err(DecodeError::Unexpected { expected: Expected::Unsigned16 }),
    }
}

// ---------------------------------------------------------------------------
// Readers of members

/// The member `key` as text.
pub open spec fn required_text(members: Members, key: Seq<char>) -> Result<
    Seq<char>,
    DecodeFailure,
> {
    match member(members, key) {
        Some(value) => text_of(value),
        None => Err(DecodeFailure::MissingField { field: key }),
    }
}

/// The member `key` as a `u32`.
pub open spec fn required_u32(members: Members, key: Seq<char>) -> Result<u32, DecodeFailure> {
    match member(members, key) {
        Some(value) => u32_of(value),
        None => Err(DecodeFailure::MissingField { field: key }),
    }
}

/// The member `key`, or the member under its older name `alias`, where one
/// is there and not `null`. Given under both names it is refused.
pub open spec fn aliased(members: Members, key: Seq<char>, alias: Seq<char>) -> Result<
    Option<JsonValue>,
    DecodeFailure,
> {
    if member(members, key) is Some && member(members, alias) is Some {
        Err(DecodeFailure::DuplicateField { field: key })
    } else if member(members, key) is Some {
        Ok(present(members, key))
    } else {
        Ok(present(members, alias))
    }
}

/// An optional member as a `u32`.
pub open spec fn opt_u32(found: Option<JsonValue>) -> Result<Option<u32>, DecodeFailure> {
    match found {
        Some(value) => match u32_of(value) {
            Ok(n) => Ok(Some(n)),
            Err(e) => Err(e),
        },
        None => Ok(None),
    }
}

/// An optional member as a `u16`.
pub open spec fn opt_u16(found: Option<JsonValue>) -> Result<Option<u16>, DecodeFailure> {
    match found {
        Some(value) => match u16_of(value) {
            Ok(n) => Ok(Some(n)),
            Err(e) => Err(e),
        },
        None => Ok(None),
    }
}

/// An optional member as the literal of a number.
pub open spec fn opt_number(found: Option<JsonValue>) -> Result<Option<Seq<char>>, DecodeFailure> {
    match found {
        Some(value) => match number_of(value) {
            Ok(n) => Ok(Some(n)),
            Err(e) => Err(e),
        },
        None => Ok(None),
    }
}

/// An optional member under one of two names, as a `u32`.
pub open spec fn opt_u32_aliased(found: Result<Option<JsonValue>, DecodeFailure>) -> Result<
    Option<u32>,
    DecodeFailure,
> {
    match found {
        Ok(value) => opt_u32(value),
        Err(e) => Err(e),
    }
}

/// The member `key` where it is there and not `null`.
pub fn find_present<'a>(members: &'a Vec<Member>, key: &str) -> (found: Option<&'a Json>)
    ensures
        match found {
            Some(value) => present(members_view(members@), key@) == Some(value@),
            None => present(members_view(members@), key@) is None,
        },
{
    match find_member(members, key) {
        Some(Json::Null) => None,
        other => other,
    }
}

/// A `MissingField` error for `key`.
pub fn missing(key: &str) -> (e: DecodeError)
    ensures
        e@ == (DecodeFailure::MissingField { field: key@ }),
{
    DecodeError::MissingField { field: key.to_owned() }
}

/// Reads the member `key`, which must be there, as a `u32`.
pub fn read_required_u32(members: &Vec<Member>, key: &str) -> (out: Result<u32, DecodeError>)
    ensures
        outcome(out) == required_u32(members_view(members@), key@),
{
    match find_member(members, key) {
        Some(value) => read_u32(value),
        None => Err(missing(key)),
    }
}

/// Finds the member `key`, or the member under its older name `alias`.
pub fn find_aliased<'a>(members: &'a Vec<Member>, key: &str, alias: &str) -> (out: Result<
    Option<&'a Json>,
    DecodeError,
>)
    ensures
        optional_outcome(out) == aliased(members_view(members@), key@, alias@),
{
    let first = find_member(members, key);
    let second = find_member(members, alias);
    if first.is_some() && second.is_some() {
        Err(DecodeError::DuplicateField { field: key.to_owned() })
    } else if first.is_some() {
        Ok(find_present(members, key))
    } else {
        Ok(find_present(members, alias))
    }
}

/// Reads an optional member as a `u32`.
pub fn read_opt_u32(found: Option<&Json>) -> (out: Result<Option<u32>, DecodeError>)
    ensures
        optional_outcome(out) == opt_u32(option_view(found)),
{
    match found {
        Some(value) => match read_u32(value) {
            Ok(n) => Ok(Some(n)),
            Err(e) => Err(e),
        },
        None => Ok(None),
    }
}

/// Reads an optional member as a `u16`.
pub fn read_opt_u16(found: Option<&Json>) -> (out: Result<Option<u16>, DecodeError>)
    ensures
        optional_outcome(out) == opt_u16(option_view(found)),
{
    match found {
        Some(value) => match read_u16(value) {
            Ok(n) => Ok(Some(n)),
            Err(e) => Err(e),
        },
        None => Ok(None),
    }
}

/// Reads an optional member under one of two names as a `u32`.
pub fn read_opt_u32_aliased(members: &Vec<Member>, key: &str, alias: &str) -> (out: Result<
    Option<u32>,
    DecodeError,
>)
    ensures
        optional_outcome(out) == opt_u32_aliased(aliased(members_view(members@), key@, alias@)),
{
    match find_aliased(members, key, alias) {
        Ok(found) => read_opt_u32(found),
        Err(e) => Err(e),
    }
}

// ---------------------------------------------------------------------------
// Writers of members

/// `members` and one more member.
pub open spec fn with(members: Members, key: Seq<char>, value: JsonValue) -> Members {
    members.push((key, value))
}

/// `members` and one more member where there is a value for it.
pub open spec fn with_some(members: Members, key: Seq<char>, value: Option<JsonValue>) -> Members {
    match value {
        Some(v) => members.push((key, v)),
        None => members,
    }
}

/// A number as a JSON number.
pub open spec fn unsigned_json(n: nat) -> JsonValue {
    JsonValue::Number(crate::text::decimal(n))
}

/// A number written by `unsigned_json` reads back.
pub proof fn lemma_unsigned_json(n: nat, max: nat)
    requires
        n <= max,
    ensures
        unsigned_in(unsigned_json(n), max) == Some(n),
{
    crate::text::lemma_decimal(n);
}

/// An optional string as an optional JSON string.
pub open spec fn opt_text_json(text: Option<Seq<char>>) -> Option<JsonValue> {
    match text {
        Some(t) => Some(JsonValue::Text(t)),
        None => None,
    }
}

/// An optional string as a JSON string, or `null` where there is none.
pub open spec fn text_or_null(text: Option<Seq<char>>) -> JsonValue {
    match text {
        Some(t) => JsonValue::Text(t),
        None => JsonValue::Null,
    }
}

/// The literal of a whole number: its digits, behind a minus sign where it
/// is below zero.
pub open spec fn signed_literal(n: int) -> Seq<char> {
    if n < 0 {
        seq!['-'] + crate::text::decimal((-n) as nat)
    } else {
        crate::text::decimal(n as nat)
    }
}

/// An optional string as an optional JSON string.
pub fn json_of_opt_text(text: &Option<String>) -> (out: Option<Json>)
    ensures
        option_view(out) == opt_text_json(option_view(*text)),
{
    match text {
        Some(t) => Some(Json::Text(t.clone())),
        None => None,
    }
}

/// An optional string as a JSON string, or `null` where there is none.
pub fn json_of_text_or_null(text: &Option<String>) -> (out: Json)
    ensures
        out@ == text_or_null(option_view(*text)),
{
    match text {
        Some(t) => Json::Text(t.clone()),
        None => Json::Null,
    }
}

/// An `i32` as a JSON number.
pub fn json_of_i32(n: i32) -> (out: Json)
    ensures
        out@ == JsonValue::Number(signed_literal(n as int)),
{
    if n < 0 {
        let magnitude: u64 = (-(n as i64)) as u64;
        let mut literal = String::new();
        literal.push('-');
        crate::text::push_decimal(&mut literal, magnitude);
        Json::Number(literal)
    } else {
        Json::Number(crate::text::render_unsigned(n as u64))
    }
}

/// Appends a member.
pub fn push_member(members: &mut Vec<Member>, key: &str, value: Json)
    ensures
        members_view(final(members)@) == with(members_view(old(members)@), key@, value@),
{
    members.push(Member { key: key.to_owned(), value });
}

/// Appends a member where there is a value for it.
pub fn push_some(members: &mut Vec<Member>, key: &str, value: Option<Json>)
    ensures
        members_view(final(members)@) == with_some(
            members_view(old(members)@),
            key@,
            option_view(value),
        ),
{
    match value {
        Some(v) => push_member(members, key, v),
        None => {},
    }
}

/// A `u32` as a JSON number.
pub fn json_of_u32(n: u32) -> (out: Json)
    ensures
        out@ == unsigned_json(n as nat),
        u32_of(out@) == Ok::<u32, DecodeFailure>(n),
{
    proof {
        lemma_unsigned_json(n as nat, u32::MAX as nat);
    }
    Json::Number(crate::text::render_unsigned(n as u64))
}

/// A `u16` as a JSON number.
pub fn json_of_u16(n: u16) -> (out: Json)
    ensures
        out@ == unsigned_json(n as nat),
        u16_of(out@) == Ok::<u16, DecodeFailure>(n),
{
    proof {
        lemma_unsigned_json(n as nat, u16::MAX as nat);
    }
    Json::Number(crate::text::render_unsigned(n as u64))
}

/// An optional `u32` as an optional JSON number.
pub fn json_of_opt_u32(n: Option<u32>) -> (out: Option<Json>)
    ensures
        option_view(out) == match n {
            Some(v) => Some(unsigned_json(v as nat)),
            None => None,
        },
{
    match n {
        Some(v) => Some(json_of_u32(v)),
        None => None,
    }
}

// ---------------------------------------------------------------------------
// Messages

impl Expected {
    /// A few words for the kind of value.
    pub open spec fn words(self) -> Seq<char> {
        match self {
            Expected::Text => "a string"@,
            Expected::Unsigned16 => "an integer from 0 to 65535"@,
            Expected::Unsigned32 => "an integer from 0 to 4294967295"@,
            Expected::Number => "a number"@,
            Expected::Array => "an array"@,
            Expected::Object => "an object"@,
        }
    }

    /// A few words for the kind of value.
    pub fn describe(self) -> (out: &'static str)
        ensures
            out@ == self.words(),
    {
        match self {
            Expected::Text => "a string",
            Expected::Unsigned16 => "an integer from 0 to 65535",
            Expected::Unsigned32 => "an integer from 0 to 4294967295",
            Expected::Number => "a number",
            Expected::Array => "an array",
            Expected::Object => "an object",
        }
    }
}

impl Shape {
    /// The format, spelled out.
    pub open spec fn words(self) -> Seq<char> {
        match self {
            Shape::Resolution => "<width>x<height>"@,
            Shape::Crop => "<left>:<right>:<top>:<bottom>"@,
            Shape::SinkPad => "<node>.<pad>"@,
            Shape::Uuid => "a UUID"@,
            Shape::Url => "an absolute URL"@,
        }
    }

    /// The format, spelled out.
    pub fn describe(self) -> (out: &'static str)
        ensures
            out@ == self.words(),
    {
        match self {
            Shape::Resolution => "<width>x<height>",
            Shape::Crop => "<left>:<right>:<top>:<bottom>",
            Shape::SinkPad => "<node>.<pad>",
            Shape::Uuid => "a UUID",
            Shape::Url => "an absolute URL",
        }
    }
}

impl Family {
    /// The names of the family, separated by commas.
    pub open spec fn words(self) -> Seq<char> {
        match self {
            Family::NodeType => "`video`, `encode`, `stream_rtsp_out`, `transform`, `grid`, `gst_template`"@,
            Family::SourceType => "`camera`, `stream`"@,
            Family::FlipDirection => "`horizontal`, `vertical`"@,
            Family::RotateDirection => "`clockwise90`, `clockwise180`, `counter_clockwise90`"@,
            Family::Capability => "`classification`, `detection`, `segmentation`, `transformation`, `other`"@,
            Family::Architecture => "`detectnet`, `frcnn`, `mobilenet`, `resnet`, `ssd`, `tinyyolo`, `yolo`, `yolov2`, `yolov3`, `yolov4`, `yolov5`, `yolov2_tiny`, `yolov3_tiny`, `yolov4_tiny`"@,
            Family::Format => "`caffe`, `etlt`, `yolonative`, `onnx`, `uff`, `tensorflow`, `openvino`"@,
            Family::ModelColorFormat => "`rgb`, `bgr`, `grayscale`"@,
            Family::ModelNetworkMode => "`float32`, `int8`, `float16`"@,
            Family::ModelInputOrder => "`nchw`, `nhwc`, `nc`"@,
            Family::ClusterMode => "`open_cv_group_rectangles`, `dbscan`, `nms`, `dbscan_nms_hybrid`, `no_clustering`"@,
            Family::DeploymentState => "`deploying`, `running`, `stopping`, `stopped`, `interrupted`, `error`, `unknown`"@,
            Family::Severity => "`error`, `warning`, `info`, `debug`"@,
            Family::GstErrorDomain => "`core`, `library`, `resource`, `stream`"@,
            Family::FileCloudStatus => "`disabled`, `uploading`, `uploaded`"@,
            Family::StreamType => "`rtsp`, `webrtc`, `file`"@,
            Family::StreamSource => "`camera_stream`, `uri_stream`, `pipeline_stream`"@,
            Family::StreamStatus => "`online`, `offline`, `unknown`"@,
        }
    }

    /// The names of the family, separated by commas.
    pub fn describe(self) -> (out: &'static str)
        ensures
            out@ == self.words(),
    {
        match self {
            Family::NodeType => "`video`, `encode`, `stream_rtsp_out`, `transform`, `grid`, `gst_template`",
            Family::SourceType => "`camera`, `stream`",
            Family::FlipDirection => "`horizontal`, `vertical`",
            Family::RotateDirection => "`clockwise90`, `clockwise180`, `counter_clockwise90`",
            Family::Capability => "`classification`, `detection`, `segmentation`, `transformation`, `other`",
            Family::Architecture => "`detectnet`, `frcnn`, `mobilenet`, `resnet`, `ssd`, `tinyyolo`, `yolo`, `yolov2`, `yolov3`, `yolov4`, `yolov5`, `yolov2_tiny`, `yolov3_tiny`, `yolov4_tiny`",
            Family::Format => "`caffe`, `etlt`, `yolonative`, `onnx`, `uff`, `tensorflow`, `openvino`",
            Family::ModelColorFormat => "`rgb`, `bgr`, `grayscale`",
            Family::ModelNetworkMode => "`float32`, `int8`, `float16`",
            Family::ModelInputOrder => "`nchw`, `nhwc`, `nc`",
            Family::ClusterMode => "`open_cv_group_rectangles`, `dbscan`, `nms`, `dbscan_nms_hybrid`, `no_clustering`",
            Family::DeploymentState => "`deploying`, `running`, `stopping`, `stopped`, `interrupted`, `error`, `unknown`",
            Family::Severity => "`error`, `warning`, `info`, `debug`",
            Family::GstErrorDomain => "`core`, `library`, `resource`, `stream`",
            Family::FileCloudStatus => "`disabled`, `uploading`, `uploaded`",
            Family::StreamType => "`rtsp`, `webrtc`, `file`",
            Family::StreamSource => "`camera_stream`, `uri_stream`, `pipeline_stream`",
            Family::StreamStatus => "`online`, `offline`, `unknown`",
        }
    }
}

/// The sentence that reports `failure`.
pub open spec fn message_of(failure: DecodeFailure) -> Seq<char> {
    match failure {
        DecodeFailure::MissingField { field } => "missing field `"@ + field + "`"@,
        DecodeFailure::DuplicateField { field } => "duplicate field `"@ + field + "`"@,
        DecodeFailure::Unexpected { expected } => "invalid value, expected "@ + expected.words(),
        DecodeFailure::Malformed { shape, text } => "malformed text `"@ + text + "`, expected "@
            + shape.words(),
        DecodeFailure::UnknownVariant { family, value } => "unknown variant `"@ + value
            + "`, expected one of "@ + family.words(),
        DecodeFailure::DanglingReference { node } => "Destination node `"@ + node + "` not found"@,
        DecodeFailure::NullDefinition => "definition is null"@,
        DecodeFailure::InvalidText => "definition is a string that does not hold JSON"@,
    }
}

impl DecodeError {
    /// The sentence that reports this error. It names the offending text and
    /// what was expected in its place.
    pub fn message(&self) -> (out: String)
        ensures
            out@ == message_of(self@),
    {
        match self {
            DecodeError::MissingField { field } => {
                let head = concat("missing field `", field.as_str());
                concat(head.as_str(), "`")
            },
            DecodeError::DuplicateField { field } => {
                let head = concat("duplicate field `", field.as_str());
                concat(head.as_str(), "`")
            },
            DecodeError::Unexpected { expected } => concat(
                "invalid value, expected ",
                expected.describe(),
            ),
            DecodeError::Malformed { shape, text } => {
                let head = concat("malformed text `", text.as_str());
                let middle = concat(head.as_str(), "`, expected ");
                concat(middle.as_str(), shape.describe())
            },
            DecodeError::UnknownVariant { family, value } => {
                let head = concat("unknown variant `", value.as_str());
                let middle = concat(head.as_str(), "`, expected one of ");
                concat(middle.as_str(), family.describe())
            },
            DecodeError::DanglingReference { node } => {
                let head = concat("Destination node `", node.as_str());
                concat(head.as_str(), "` not found")
            },
            DecodeError::NullDefinition => "definition is null".to_owned(),
            DecodeError::InvalidText => "definition is a string that does not hold JSON".to_owned(),
        }
    }
}

} // verus!
