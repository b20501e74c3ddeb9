//! What a node does: one set of properties for each kind of node.

use vstd::prelude::*;

use crate::decode::{
    aliased, find_present, json_of_opt_u32, json_of_u16, missing, opt_u16, opt_u32,
    opt_u32_aliased, option_view, outcome, push_member, push_some, read_opt_u16, read_opt_u32,
    read_opt_u32_aliased, read_text, required_text, unsigned_json, with, with_some, DecodeError,
    DecodeFailure, Expected, Family,
};
use crate::json::{
    find_member, lemma_member_push, lemma_object_view, member, members_view, present, Json,
    JsonValue, Member, Members,
};
use crate::pipeline::node_properties::grid_properties::{
    grid_members, grid_of, is_grid_key, lemma_grid_keys, lemma_grid_round_trip, GridProperties,
};
use crate::pipeline::node_properties::gst_template_properties::{
    gst_template_members, gst_template_of, is_gst_template_key, lemma_gst_template_keys,
    lemma_gst_template_round_trip, GstTemplateProperties, GstTemplateView,
};
use crate::pipeline::node_properties::transform_properties::{
    is_transform_key, lemma_transform_keys, lemma_transform_round_trip, transform_members,
    transform_of, TransformProperties, TransformView,
};
use crate::pipeline::node_properties::video_source_properties::{
    lemma_video_source_keys, lemma_video_source_round_trip, video_source_members,
    video_source_of, VideoSourceProperties, VideoSourceView,
};
use crate::url::{is_url, url_of, Url};
use crate::uuid::{hyphenated, reads_back, uuid_of, Uuid};

pub mod grid_properties;
pub mod gst_template_properties;
pub mod transform_properties;
pub mod video_source_properties;

verus! {

// ---------------------------------------------------------------------------
// Encoders

/// How an encoder node compresses video.
#[derive(Clone, Debug, PartialEq, Eq)]
pub struct EncodeProperties {
    pub codec: String,
    pub max_bitrate: Option<u32>,
    pub bitrate: Option<u32>,
    pub quality: Option<u32>,
    pub framerate: Option<u32>,
}

/// The mathematical value of an `EncodeProperties`.
pub struct EncodeView {
    pub codec: Seq<char>,
    pub max_bitrate: Option<u32>,
    pub bitrate: Option<u32>,
    pub quality: Option<u32>,
    pub framerate: Option<u32>,
}

impl View for EncodeProperties {
    type V = EncodeView;

    open spec fn view(&self) -> EncodeView {
        EncodeView {
            codec: self.codec@,
            max_bitrate: self.max_bitrate,
            bitrate: self.bitrate,
            quality: self.quality,
            framerate: self.framerate,
        }
    }
}

/// `key` is one of the names under which an encoder keeps a member.
pub open spec fn is_encode_key(key: Seq<char>) -> bool {
    key == "codec"@ || key == "max_bitrate"@ || key == "bitrate"@ || key == "quality"@ || key
        == "framerate"@ || key == "fps"@
}

/// The encoder that the members of an object describe. The framerate may
/// come as `fps`.
pub open spec fn encode_of(m: Members) -> Result<EncodeView, DecodeFailure> {
    let codec = required_text(m, "codec"@);
    let max_bitrate = opt_u32(present(m, "max_bitrate"@));
    let bitrate = opt_u32(present(m, "bitrate"@));
    let quality = opt_u32(present(m, "quality"@));
    let framerate = opt_u32_aliased(aliased(m, "framerate"@, "fps"@));
    if codec is Err {
        Err(codec->Err_0)
    } else if max_bitrate is Err {
        Err(max_bitrate->Err_0)
    } else if bitrate is Err {
        Err(bitrate->Err_0)
    } else if quality is Err {
        Err(quality->Err_0)
    } else if framerate is Err {
        Err(framerate->Err_0)
    } else {
        Ok(
            EncodeView {
                codec: codec->Ok_0,
                max_bitrate: max_bitrate->Ok_0,
                bitrate: bitrate->Ok_0,
                quality: quality->Ok_0,
                framerate: framerate->Ok_0,
            },
        )
    }
}

/// An optional number as an optional JSON number.
pub open spec fn opt_unsigned_json(n: Option<u32>) -> Option<JsonValue> {
    match n {
        Some(v) => Some(unsigned_json(v as nat)),
        None => None,
    }
}

/// `base` and the members of an encoder; a part that is unset adds nothing.
pub open spec fn encode_members(base: Members, e: EncodeView) -> Members {
    let m = with(base, "codec"@, JsonValue::Text(e.codec));
    let m = with_some(m, "max_bitrate"@, opt_unsigned_json(e.max_bitrate));
    let m = with_some(m, "bitrate"@, opt_unsigned_json(e.bitrate));
    let m = with_some(m, "quality"@, opt_unsigned_json(e.quality));
    with_some(m, "framerate"@, opt_unsigned_json(e.framerate))
}

/// The lengths and letters of the kinds of node and of the member names of
/// encoders and RTSP outputs, which tell them apart.
pub proof fn lemma_node_keys()
    ensures
        "type"@.len() == 4,
        "codec"@.len() == 5,
        "max_bitrate"@.len() == 11,
        "bitrate"@.len() == 7,
        "quality"@.len() == 7,
        "framerate"@.len() == 9,
        "fps"@.len() == 3,
        "uri"@.len() == 3,
        "stream_id"@.len() == 9,
        "udp_port"@.len() == 8,
        "video"@.len() == 5,
        "encode"@.len() == 6,
        "stream_rtsp_out"@.len() == 15,
        "transform"@.len() == 9,
        "grid"@.len() == 4,
        "gst_template"@.len() == 12,
        "type"@[0] == 't',
        "grid"@[0] == 'g',
        "codec"@[0] == 'c',
        "video"@[0] == 'v',
        "bitrate"@[0] == 'b',
        "quality"@[0] == 'q',
        "framerate"@[0] == 'f',
        "stream_id"@[0] == 's',
        "transform"@[0] == 't',
        "fps"@[0] == 'f',
        "uri"@[0] == 'u',
{
    reveal_strlit("type");
    reveal_strlit("codec");
    reveal_strlit("max_bitrate");
    reveal_strlit("bitrate");
    reveal_strlit("quality");
    reveal_strlit("framerate");
    reveal_strlit("fps");
    reveal_strlit("uri");
    reveal_strlit("stream_id");
    reveal_strlit("udp_port");
    reveal_strlit("video");
    reveal_strlit("encode");
    reveal_strlit("stream_rtsp_out");
    reveal_strlit("transform");
    reveal_strlit("grid");
    reveal_strlit("gst_template");
}

/// A number within `u32` reads back from its JSON number.
proof fn lemma_opt_unsigned(n: Option<u32>)
    ensures
        opt_u32(opt_unsigned_json(n)) == Ok::<Option<u32>, DecodeFailure>(n),
        opt_unsigned_json(n) matches Some(v) ==> !(v is Null),
{
    if n is Some {
        crate::decode::lemma_unsigned_json(n->Some_0 as nat, u32::MAX as nat);
    }
}

/// An encoder is read back from its members, whatever stands before them
/// under other names; and its members change nothing under other names.
pub proof fn lemma_encode_round_trip(base: Members, e: EncodeView)
    requires
        forall|key: Seq<char>| is_encode_key(key) ==> member(base, key) is None,
    ensures
        encode_of(encode_members(base, e)) == Ok::<EncodeView, DecodeFailure>(e),
        forall|key: Seq<char>|
            !is_encode_key(key) ==> member(encode_members(base, e), key) == member(base, key),
{
    broadcast use lemma_member_push;

    lemma_node_keys();
    assert(is_encode_key("codec"@) && is_encode_key("max_bitrate"@) && is_encode_key("bitrate"@)
        && is_encode_key("quality"@) && is_encode_key("framerate"@) && is_encode_key("fps"@));
    lemma_opt_unsigned(e.max_bitrate);
    lemma_opt_unsigned(e.bitrate);
    lemma_opt_unsigned(e.quality);
    lemma_opt_unsigned(e.framerate);
}

impl EncodeProperties {
    /// Decodes an encoder from the members of an object.
    pub fn from_members(members: &Vec<Member>) -> (out: Result<EncodeProperties, DecodeError>)
        ensures
            outcome(out) == encode_of(members_view(members@)),
    {
        let codec = match find_member(members, "codec") {
            Some(value) => read_text(value)?,
            None => {
                return Err(missing("codec"));
            },
        };
        let max_bitrate = read_opt_u32(find_present(members, "max_bitrate"))?;
        let bitrate = read_opt_u32(find_present(members, "bitrate"))?;
        let quality = read_opt_u32(find_present(members, "quality"))?;
        let framerate = read_opt_u32_aliased(members, "framerate", "fps")?;
        Ok(EncodeProperties { codec, max_bitrate, bitrate, quality, framerate })
    }

    /// Appends the members of this encoder to `members`.
    pub fn write_members(&self, members: &mut Vec<Member>)
        ensures
            members_view(final(members)@) == encode_members(members_view(old(members)@), self@),
    {
        push_member(members, "codec", Json::Text(self.codec.clone()));
        push_some(members, "max_bitrate", json_of_opt_u32(self.max_bitrate));
        push_some(members, "bitrate", json_of_opt_u32(self.bitrate));
        push_some(members, "quality", json_of_opt_u32(self.quality));
        push_some(members, "framerate", json_of_opt_u32(self.framerate));
    }
}

// ---------------------------------------------------------------------------
// RTSP outputs

/// Where an RTSP output is served once the pipeline runs.
#[derive(Clone, Debug, PartialEq, Eq)]
pub struct StreamRtspOutRuntime {
    pub uri: Url,
    pub stream_id: Uuid,
    pub udp_port: Option<u16>,
}

/// A node that serves its input over RTSP.
#[derive(Clone, Debug, PartialEq, Eq)]
pub struct StreamRtspOutProperties {
    pub runtime: Option<StreamRtspOutRuntime>,
}

/// The mathematical value of a `StreamRtspOutRuntime`.
pub struct RtspOutRuntimeView {
    pub uri: Seq<char>,
    pub stream_id: Uuid,
    pub udp_port: Option<u16>,
}

/// The mathematical value of a `StreamRtspOutProperties`.
pub struct RtspOutView {
    pub runtime: Option<RtspOutRuntimeView>,
}

impl View for StreamRtspOutRuntime {
    type V = RtspOutRuntimeView;

    open spec fn view(&self) -> RtspOutRuntimeView {
        RtspOutRuntimeView { uri: self.uri@, stream_id: self.stream_id, udp_port: self.udp_port }
    }
}

impl View for StreamRtspOutProperties {
    type V = RtspOutView;

    open spec fn view(&self) -> RtspOutView {
        RtspOutView { runtime: option_view(self.runtime) }
    }
}

/// `key` is one of the names under which an RTSP output keeps a member.
pub open spec fn is_rtsp_out_key(key: Seq<char>) -> bool {
    key == "uri"@ || key == "stream_id"@ || key == "udp_port"@
}

/// The runtime of an RTSP output among the members of an object: a URL under
/// `uri`, a UUID under `stream_id` and, where it is there, a port under
/// `udp_port`. Where one of them is missing or is not what it should be, the
/// runtime is left unset.
pub open spec fn rtsp_out_runtime_of(m: Members) -> Option<RtspOutRuntimeView> {
    match (member(m, "uri"@), member(m, "stream_id"@)) {
        (Some(uri), Some(id)) => match (
            url_of(uri),
            uuid_of(id),
            opt_u16(present(m, "udp_port"@)),
        ) {
            (Ok(u), Ok(i), Ok(p)) => Some(RtspOutRuntimeView { uri: u, stream_id: i, udp_port: p }),
            _ => None,
        },
        _ => None,
    }
}

/// `base` and the members of the runtime of an RTSP output, where it is known.
pub open spec fn rtsp_out_members(base: Members, o: RtspOutView) -> Members {
    match o.runtime {
        Some(r) => {
            let m = with(base, "uri"@, JsonValue::Text(r.uri));
            let m = with(m, "stream_id"@, JsonValue::Text(hyphenated(r.stream_id.value)));
            with_some(
                m,
                "udp_port"@,
                match r.udp_port {
                    Some(p) => Some(unsigned_json(p as nat)),
                    None => None,
                },
            )
        },
        None => base,
    }
}

impl RtspOutView {
    /// The URL is in normal form and the identifier reads back.
    pub open spec fn valid(self) -> bool {
        self.runtime matches Some(r) ==> is_url(r.uri) && reads_back(r.stream_id)
    }
}

/// A valid RTSP output is read back from its members, whatever stands before
/// them under other names; and its members change nothing under other names.
pub proof fn lemma_rtsp_out_round_trip(base: Members, o: RtspOutView)
    requires
        o.valid(),
        forall|key: Seq<char>| is_rtsp_out_key(key) ==> member(base, key) is None,
    ensures
        rtsp_out_runtime_of(rtsp_out_members(base, o)) == o.runtime,
        forall|key: Seq<char>|
            !is_rtsp_out_key(key) ==> member(rtsp_out_members(base, o), key) == member(base, key),
{
    broadcast use lemma_member_push;

    lemma_node_keys();
    assert(is_rtsp_out_key("uri"@) && is_rtsp_out_key("stream_id"@) && is_rtsp_out_key(
        "udp_port"@,
    ));
    if o.runtime is Some {
        let r = o.runtime->Some_0;
        if r.udp_port is Some {
            crate::decode::lemma_unsigned_json(r.udp_port->Some_0 as nat, u16::MAX as nat);
        }
    }
}

impl StreamRtspOutRuntime {
    /// Reads the runtime of an RTSP output among the members of an object.
    pub fn from_members(members: &Vec<Member>) -> (out: Option<StreamRtspOutRuntime>)
        ensures
            option_view(out) == rtsp_out_runtime_of(members_view(members@)),
    {
        match (find_member(members, "uri"), find_member(members, "stream_id")) {
            (Some(uri), Some(id)) => match (
                Url::from_json(uri),
                Uuid::from_json(id),
                read_opt_u16(find_present(members, "udp_port")),
            ) {
                (Ok(u), Ok(i), Ok(p)) => Some(
                    StreamRtspOutRuntime { uri: u, stream_id: i, udp_port: p },
                ),
                _ => None,
            },
            _ => None,
        }
    }
}

impl StreamRtspOutProperties {
    /// Decodes an RTSP output from the members of an object.
    pub fn from_members(members: &Vec<Member>) -> (out: StreamRtspOutProperties)
        ensures
            out@.runtime == rtsp_out_runtime_of(members_view(members@)),
    {
        StreamRtspOutProperties { runtime: StreamRtspOutRuntime::from_members(members) }
    }

    /// Appends the members of this RTSP output to `members`. What was written
    /// reads back as this output.
    pub fn write_members(&self, members: &mut Vec<Member>)
        ensures
            members_view(final(members)@) == rtsp_out_members(members_view(old(members)@), self@),
            self@.valid(),
    {
        match &self.runtime {
            Some(r) => {
                push_member(members, "uri", r.uri.to_json());
                push_member(members, "stream_id", r.stream_id.to_json());
                push_some(
                    members,
                    "udp_port",
                    match r.udp_port {
                        Some(p) => Some(json_of_u16(p)),
                        None => None,
                    },
                );
            },
            None => {},
        }
    }
}

// ---------------------------------------------------------------------------
// All kinds of node

/// The properties of a node, by its kind. On the wire the kind is the value
/// of the member `type`, and the properties are the other members of the
/// same object.
#[derive(Clone, Debug, PartialEq, Eq)]
pub enum NodeProperties {
    VideoSource(VideoSourceProperties),
    Encode(EncodeProperties),
    StreamRtspOut(StreamRtspOutProperties),
    Transform(TransformProperties),
    Grid(GridProperties),
    GstTemplate(GstTemplateProperties),
}

/// The mathematical value of a `NodeProperties`.
pub enum NodePropertiesView {
    VideoSource(VideoSourceView),
    Encode(EncodeView),
    StreamRtspOut(RtspOutView),
    Transform(TransformView),
    Grid(GridProperties),
    GstTemplate(GstTemplateView),
}

impl View for NodeProperties {
    type V = NodePropertiesView;

    open spec fn view(&self) -> NodePropertiesView {
        match self {
            NodeProperties::VideoSource(p) => NodePropertiesView::VideoSource(p@),
            NodeProperties::Encode(p) => NodePropertiesView::Encode(p@),
            NodeProperties::StreamRtspOut(p) => NodePropertiesView::StreamRtspOut(p@),
            NodeProperties::Transform(p) => NodePropertiesView::Transform(p@),
            NodeProperties::Grid(p) => NodePropertiesView::Grid(*p),
            NodeProperties::GstTemplate(p) => NodePropertiesView::GstTemplate(p@),
        }
    }
}

impl NodePropertiesView {
    /// The value of the tag `type`.
    pub open spec fn tag(self) -> Seq<char> {
        match self {
            NodePropertiesView::VideoSource(_) => "video"@,
            NodePropertiesView::Encode(_) => "encode"@,
            NodePropertiesView::StreamRtspOut(_) => "stream_rtsp_out"@,
            NodePropertiesView::Transform(_) => "transform"@,
            NodePropertiesView::Grid(_) => "grid"@,
            NodePropertiesView::GstTemplate(_) => "gst_template"@,
        }
    }

    /// What the properties must satisfy to be read back from their object:
    /// their identifiers read back, their URLs are in normal form, their
    /// lists are not empty.
    pub open spec fn valid(self) -> bool {
        match self {
            NodePropertiesView::VideoSource(p) => p.valid(),
            NodePropertiesView::StreamRtspOut(p) => p.valid(),
            _ => true,
        }
    }
}

/// The properties that the members of an object describe, by the tag `type`.
/// A tag that names no kind of node is refused by its value.
pub open spec fn node_properties_of_members(m: Members) -> Result<
    NodePropertiesView,
    DecodeFailure,
> {
    match member(m, "type"@) {
        None => Err(DecodeFailure::MissingField { field: "type"@ }),
        Some(JsonValue::Text(tag)) => if tag == "video"@ {
            match video_source_of(m) {
                Ok(p) => Ok(NodePropertiesView::VideoSource(p)),
                Err(e) => Err(e),
            }
        } else if tag == "encode"@ {
            match encode_of(m) {
                Ok(p) => Ok(NodePropertiesView::Encode(p)),
                Err(e) => Err(e),
            }
        } else if tag == "stream_rtsp_out"@ {
            Ok(NodePropertiesView::StreamRtspOut(RtspOutView { runtime: rtsp_out_runtime_of(m) }))
        } else if tag == "transform"@ {
            match transform_of(m) {
                Ok(p) => Ok(NodePropertiesView::Transform(p)),
                Err(e) => Err(e),
            }
        } else if tag == "grid"@ {
            match grid_of(m) {
                Ok(p) => Ok(NodePropertiesView::Grid(p)),
                Err(e) => Err(e),
            }
        } else if tag == "gst_template"@ {
            match gst_template_of(m) {
                Ok(p) => Ok(NodePropertiesView::GstTemplate(p)),
                Err(e) => Err(e),
            }
        } else {
            Err(DecodeFailure::UnknownVariant { family: Family::NodeType, value: tag })
        },
        Some(_) => Err(DecodeFailure::Unexpected { expected: Expected::Text }),
    }
}

/// The properties that a JSON value describes; it must be an object.
pub open spec fn node_properties_of(value: JsonValue) -> Result<NodePropertiesView, DecodeFailure> {
    match value {
        JsonValue::Object(m) => node_properties_of_members(m),
        _ => Err(DecodeFailure::Unexpected { expected: Expected::Object }),
    }
}

/// The members of the object of `p`: the tag, then the members of its kind.
pub open spec fn node_properties_members(p: NodePropertiesView) -> Members {
    let tagged = with(Seq::empty(), "type"@, JsonValue::Text(p.tag()));
    match p {
        NodePropertiesView::VideoSource(x) => video_source_members(tagged, x),
        NodePropertiesView::Encode(x) => encode_members(tagged, x),
        NodePropertiesView::StreamRtspOut(x) => rtsp_out_members(tagged, x),
        NodePropertiesView::Transform(x) => transform_members(tagged, x),
        NodePropertiesView::Grid(x) => grid_members(tagged, x),
        NodePropertiesView::GstTemplate(x) => gst_template_members(tagged, x),
    }
}

/// The JSON object of `p`.
pub open spec fn node_properties_json(p: NodePropertiesView) -> JsonValue {
    JsonValue::Object(node_properties_members(p))
}

/// Valid properties are read back from their object.
pub proof fn lemma_node_properties_round_trip(p: NodePropertiesView)
    requires
        p.valid(),
    ensures
        node_properties_of(node_properties_json(p)) == Ok::<NodePropertiesView, DecodeFailure>(p),
{
    broadcast use lemma_member_push;

    lemma_node_keys();
    let tagged = with(Seq::<(Seq<char>, JsonValue)>::empty(), "type"@, JsonValue::Text(p.tag()));
    let flat = node_properties_members(p);
    assert forall|key: Seq<char>| key != "type"@ implies member(tagged, key) is None by {}
    match p {
        NodePropertiesView::VideoSource(x) => {
            lemma_video_source_keys();
            lemma_video_source_round_trip(tagged, x);
        },
        NodePropertiesView::Encode(x) => {
            assert(!is_encode_key("type"@));
            lemma_encode_round_trip(tagged, x);
        },
        NodePropertiesView::StreamRtspOut(x) => {
            lemma_rtsp_out_round_trip(tagged, x);
        },
        NodePropertiesView::Transform(x) => {
            lemma_transform_keys();
            assert(!is_transform_key("type"@));
            lemma_transform_round_trip(tagged, x);
        },
        NodePropertiesView::Grid(x) => {
            lemma_grid_keys();
            assert(!is_grid_key("type"@));
            lemma_grid_round_trip(tagged, x);
        },
        NodePropertiesView::GstTemplate(x) => {
            lemma_gst_template_keys();
            assert(!is_gst_template_key("type"@));
            lemma_gst_template_round_trip(tagged, x);
        },
    }
    assert(member(flat, "type"@) == Some(JsonValue::Text(p.tag())));
}

impl NodeProperties {
    /// The value of the tag `type` for these properties.
    pub fn kind(&self) -> (out: &'static str)
        ensures
            out@ == self@.tag(),
    {
        match self {
            NodeProperties::VideoSource(_) => "video",
            NodeProperties::Encode(_) => "encode",
            NodeProperties::StreamRtspOut(_) => "stream_rtsp_out",
            NodeProperties::Transform(_) => "transform",
            NodeProperties::Grid(_) => "grid",
            NodeProperties::GstTemplate(_) => "gst_template",
        }
    }

    /// Decodes the properties of a node from the members of an object.
    pub fn from_members(members: &Vec<Member>) -> (out: Result<NodeProperties, DecodeError>)
        ensures
            outcome(out) == node_properties_of_members(members_view(members@)),
    {
        match find_member(members, "type") {
            None => Err(missing("type")),
            Some(Json::Text(tag)) => {
                let tag = tag.as_str();
                if tag.eq("video") {
                    Ok(NodeProperties::VideoSource(VideoSourceProperties::from_members(members)?))
                } else if tag.eq("encode") {
                    Ok(NodeProperties::Encode(EncodeProperties::from_members(members)?))
                } else if tag.eq("stream_rtsp_out") {
                    Ok(
                        NodeProperties::StreamRtspOut(
                            StreamRtspOutProperties::from_members(members),
                        ),
                    )
                } else if tag.eq("transform") {
                    Ok(NodeProperties::Transform(TransformProperties::from_members(members)?))
                } else if tag.eq("grid") {
                    Ok(NodeProperties::Grid(GridProperties::from_members(members)?))
                } else if tag.eq("gst_template") {
                    Ok(NodeProperties::GstTemplate(GstTemplateProperties::from_members(members)?))
                } else {
                    Err(
                        DecodeError::UnknownVariant {
                            family: Family::NodeType,
                            value: tag.to_owned(),
                        },
                    )
                }
            },
            Some(_) => Err(DecodeError::Unexpected { expected: Expected::Text }),
        }
    }

    /// Decodes the properties of a node from a JSON object.
    pub fn from_json(value: &Json) -> (out: Result<NodeProperties, DecodeError>)
        ensures
            outcome(out) == node_properties_of(value@),
    {
        match value {
            Json::Object(members) => {
                proof {
                    lemma_object_view(*members);
                }
                NodeProperties::from_members(members)
            },
            _ => Err(DecodeError::Unexpected { expected: Expected::Object }),
        }
    }

    /// Encodes the properties of a node as a JSON object. The object reads
    /// back as these properties.
    pub fn to_json(&self) -> (out: Json)
        ensures
            out@ == node_properties_json(self@),
            self@.valid(),
            node_properties_of(out@) == Ok::<NodePropertiesView, DecodeFailure>(self@),
    {
        let mut members: Vec<Member> = Vec::new();
        assert(members_view(members@) =~= Seq::empty());
        push_member(&mut members, "type", Json::Text(self.kind().to_owned()));
        match self {
            NodeProperties::VideoSource(p) => p.write_members(&mut members),
            NodeProperties::Encode(p) => p.write_members(&mut members),
            NodeProperties::StreamRtspOut(p) => p.write_members(&mut members),
            NodeProperties::Transform(p) => p.write_members(&mut members),
            NodeProperties::Grid(p) => p.write_members(&mut members),
            NodeProperties::GstTemplate(p) => p.write_members(&mut members),
        }
        proof {
            lemma_object_view(members);
            lemma_node_properties_round_trip(self@);
        }
        Json::Object(members)
    }
}

} // verus!
