//! Video sources: cameras and streams, with what is known of them at run time.

use vstd::prelude::*;

use crate::decode::{
    find_present, json_of_opt_u32, list_view, missing, opt_number, opt_u32, option_view, outcome,
    push_member, push_some, read_opt_u32, read_text, text_of, unsigned_json, with, with_some,
    DecodeError, DecodeFailure, Expected, Family,
};
use crate::json::{
    find_member, first_key, items_view, lemma_array_view, lemma_first_key, lemma_first_key_push,
    lemma_member_of_entry, lemma_member_push, lemma_object_view, member, members_view, present,
    Json, JsonValue, Member, Members,
};
use crate::named::{
    lemma_named_round_trip, opt_name_json, opt_named, read_opt_named, write_opt_named, Named,
};
use crate::lists::{id_list_from, id_list_items, ids_in, url_list_from, url_list_items, urls_in};
use crate::number::Number;
use crate::pipeline::resolution::{
    lemma_resolution_round_trip, opt_resolution, resolution_text, Resolution,
};
use crate::pipeline::node_properties::transform_properties::{
    crop_text, lemma_crop_round_trip, opt_crop, Crop, FlipDirection,
};
use crate::url::{is_url, url_of, Url};
use crate::uuid::{hyphenated, reads_back, uuid_of, Uuid};

verus! {

/// A rotation by a multiple of a quarter turn.
#[derive(Clone, Copy, Debug, PartialEq, Eq, Structural, Hash)]
pub enum RotateDirection {
    /// A quarter turn clockwise; 640x480 becomes 480x640.
    Clockwise90,
    /// Half a turn.
    Clockwise180,
    /// A quarter turn counter-clockwise; 640x480 becomes 480x640.
    CounterClockwise90,
}

impl Named for RotateDirection {
    open spec fn name(self) -> Seq<char> {
        match self {
            RotateDirection::Clockwise90 => "clockwise90"@,
            RotateDirection::Clockwise180 => "clockwise180"@,
            RotateDirection::CounterClockwise90 => "counter_clockwise90"@,
        }
    }

    open spec fn named(name: Seq<char>) -> Option<RotateDirection> {
        if name == "clockwise90"@ {
            Some(RotateDirection::Clockwise90)
        } else if name == "clockwise180"@ || name == "counter_clockwise180"@ {
            Some(RotateDirection::Clockwise180)
        } else if name == "counter_clockwise90"@ {
            Some(RotateDirection::CounterClockwise90)
        } else {
            None
        }
    }

    open spec fn family() -> Family {
        Family::RotateDirection
    }

    proof fn lemma_name_reads_back(self) {
        reveal_strlit("clockwise90");
        reveal_strlit("clockwise180");
        reveal_strlit("counter_clockwise180");
        reveal_strlit("counter_clockwise90");
        assert("clockwise180"@.len() == 12);
        assert("counter_clockwise90"@.len() == 19);
    }

    fn as_str(self) -> (out: &'static str) {
        match self {
            RotateDirection::Clockwise90 => "clockwise90",
            RotateDirection::Clockwise180 => "clockwise180",
            RotateDirection::CounterClockwise90 => "counter_clockwise90",
        }
    }

    fn from_name(name: &str) -> (out: Option<RotateDirection>) {
        if name.eq("clockwise90") {
            Some(RotateDirection::Clockwise90)
        } else if name.eq("clockwise180") || name.eq("counter_clockwise180") {
            Some(RotateDirection::Clockwise180)
        } else if name.eq("counter_clockwise90") {
            Some(RotateDirection::CounterClockwise90)
        } else {
            None
        }
    }

    fn kind() -> (out: Family) {
        Family::RotateDirection
    }
}

// ---------------------------------------------------------------------------
// What is common to every video source

/// What every video source has, whatever its kind.
#[derive(Clone, Debug, PartialEq, Eq)]
pub struct CommonVideoSourceProperties {
    /// ID of the associated object: of the camera where the source is a
    /// camera, of the stream where it is a stream.
    pub source_id: Uuid,
    /// Resolution of the video source. If unset a default is used.
    pub resolution: Option<Resolution>,
    /// Framerate of the video source. If unset a default is used.
    pub framerate: Option<u32>,
    /// Rotation by an arbitrary angle. It keeps the resolution, so parts of
    /// the picture may fall outside the frame.
    pub rotate: Option<Number>,
    /// Rotation by 90, 180 or 270 degrees. It may change the resolution and
    /// loses no pixels.
    pub rotate_fixed_angle: Option<RotateDirection>,
    /// Flip of the video source.
    pub flip: Option<FlipDirection>,
    /// Crop of the video source.
    pub crop: Option<Crop>,
}

/// The mathematical value of a `CommonVideoSourceProperties`.
pub struct CommonView {
    pub source_id: Uuid,
    pub resolution: Option<Resolution>,
    pub framerate: Option<u32>,
    pub rotate: Option<Seq<char>>,
    pub rotate_fixed_angle: Option<RotateDirection>,
    pub flip: Option<FlipDirection>,
    pub crop: Option<Crop>,
}

impl View for CommonVideoSourceProperties {
    type V = CommonView;

    open spec fn view(&self) -> CommonView {
        CommonView {
            source_id: self.source_id,
            resolution: self.resolution,
            framerate: self.framerate,
            rotate: option_view(self.rotate),
            rotate_fixed_angle: self.rotate_fixed_angle,
            flip: self.flip,
            crop: self.crop,
        }
    }
}

/// `key` is one of the names under which the common part keeps a member.
pub open spec fn is_common_key(key: Seq<char>) -> bool {
    key == "source_id"@ || key == "resolution"@ || key == "framerate"@ || key == "fps"@ || key
        == "rotate"@ || key == "rotate_fixed_angle"@ || key == "flip"@ || key == "crop"@
}

/// The member `source_id` as a UUID.
pub open spec fn source_id_of(m: Members) -> Result<Uuid, DecodeFailure> {
    match member(m, "source_id"@) {
        Some(value) => uuid_of(value),
        None => Err(DecodeFailure::MissingField { field: "source_id"@ }),
    }
}

/// The common part that the members of an object describe. The framerate is
/// that of `framerate`, or else that of the older `fps`; both are read, so a
/// value of the wrong kind under either name is refused.
pub open spec fn common_of(m: Members) -> Result<CommonView, DecodeFailure> {
    let source_id = source_id_of(m);
    let resolution = opt_resolution(present(m, "resolution"@));
    let framerate = opt_u32(present(m, "framerate"@));
    let fps = opt_u32(present(m, "fps"@));
    let rotate = opt_number(present(m, "rotate"@));
    let rotate_fixed_angle = opt_named::<RotateDirection>(present(m, "rotate_fixed_angle"@));
    let flip = opt_named::<FlipDirection>(present(m, "flip"@));
    let crop = opt_crop(present(m, "crop"@));
    if source_id is Err {
        Err(source_id->Err_0)
    } else if resolution is Err {
        Err(resolution->Err_0)
    } else if framerate is Err {
        Err(framerate->Err_0)
    } else if fps is Err {
        Err(fps->Err_0)
    } else if rotate is Err {
        Err(rotate->Err_0)
    } else if rotate_fixed_angle is Err {
        Err(rotate_fixed_angle->Err_0)
    } else if flip is Err {
        Err(flip->Err_0)
    } else if crop is Err {
        Err(crop->Err_0)
    } else {
        Ok(
            CommonView {
                source_id: source_id->Ok_0,
                resolution: resolution->Ok_0,
                framerate: if framerate->Ok_0 is Some {
                    framerate->Ok_0
                } else {
                    fps->Ok_0
                },
                rotate: rotate->Ok_0,
                rotate_fixed_angle: rotate_fixed_angle->Ok_0,
                flip: flip->Ok_0,
                crop: crop->Ok_0,
            },
        )
    }
}

/// `base` and the members of the common part; a part that is unset adds
/// nothing, and the framerate goes under `framerate`.
pub open spec fn common_members(base: Members, c: CommonView) -> Members {
    let m = with(base, "source_id"@, JsonValue::Text(hyphenated(c.source_id.value)));
    let m = with_some(
        m,
        "resolution"@,
        match c.resolution {
            Some(r) => Some(JsonValue::Text(resolution_text(r))),
            None => None,
        },
    );
    let m = with_some(
        m,
        "framerate"@,
        match c.framerate {
            Some(n) => Some(unsigned_json(n as nat)),
            None => None,
        },
    );
    let m = with_some(
        m,
        "rotate"@,
        match c.rotate {
            Some(n) => Some(JsonValue::Number(n)),
            None => None,
        },
    );
    let m = with_some(m, "rotate_fixed_angle"@, opt_name_json(c.rotate_fixed_angle));
    let m = with_some(m, "flip"@, opt_name_json(c.flip));
    with_some(
        m,
        "crop"@,
        match c.crop {
            Some(x) => Some(JsonValue::Text(crop_text(x))),
            None => None,
        },
    )
}

/// The lengths and letters of the member names of a video source, which tell them apart.
pub proof fn lemma_video_source_keys()
    ensures
        "type"@.len() == 4,
        "source_type"@.len() == 11,
        "source_id"@.len() == 9,
        "resolution"@.len() == 10,
        "framerate"@.len() == 9,
        "fps"@.len() == 3,
        "rotate"@.len() == 6,
        "rotate_fixed_angle"@.len() == 18,
        "flip"@.len() == 4,
        "crop"@.len() == 4,
        "usb"@.len() == 3,
        "csi"@.len() == 3,
        "url_file"@.len() == 8,
        "lumeo_file"@.len() == 10,
        "rtsp"@.len() == 4,
        "web_rtc"@.len() == 7,
        "camera"@.len() == 6,
        "stream"@.len() == 6,
        "type"@[0] == 't',
        "flip"@[0] == 'f',
        "crop"@[0] == 'c',
        "rtsp"@[0] == 'r',
        "source_id"@[0] == 's',
        "framerate"@[0] == 'f',
        "resolution"@[0] == 'r',
        "lumeo_file"@[0] == 'l',
        "fps"@[0] == 'f',
        "usb"@[0] == 'u',
        "csi"@[0] == 'c',
        "rotate"@[0] == 'r',
        "camera"@[0] == 'c',
        "stream"@[0] == 's',
{
    reveal_strlit("type");
    reveal_strlit("source_type");
    reveal_strlit("source_id");
    reveal_strlit("resolution");
    reveal_strlit("framerate");
    reveal_strlit("fps");
    reveal_strlit("rotate");
    reveal_strlit("rotate_fixed_angle");
    reveal_strlit("flip");
    reveal_strlit("crop");
    reveal_strlit("usb");
    reveal_strlit("csi");
    reveal_strlit("url_file");
    reveal_strlit("lumeo_file");
    reveal_strlit("rtsp");
    reveal_strlit("web_rtc");
    reveal_strlit("camera");
    reveal_strlit("stream");
}

/// The lengths of the member names inside a runtime, which tell them apart.
pub proof fn lemma_runtime_keys()
    ensures
        "uri"@.len() == 3,
        "name"@.len() == 4,
        "urls"@.len() == 4,
        "file_ids"@.len() == 8,
        "name"@[0] == 'n',
        "urls"@[0] == 'u',
{
    reveal_strlit("uri");
    reveal_strlit("name");
    reveal_strlit("urls");
    reveal_strlit("file_ids");
}

/// The common part reads the same from two lists of members that agree under
/// each of its names.
pub proof fn lemma_common_depends(a: Members, b: Members)
    requires
        forall|key: Seq<char>| is_common_key(key) ==> member(a, key) == member(b, key),
    ensures
        common_of(a) == common_of(b),
{
    assert(is_common_key("source_id"@));
    assert(is_common_key("resolution"@));
    assert(is_common_key("framerate"@));
    assert(is_common_key("fps"@));
    assert(is_common_key("rotate"@));
    assert(is_common_key("rotate_fixed_angle"@));
    assert(is_common_key("flip"@));
    assert(is_common_key("crop"@));
}

/// The common part is read back from its members, whatever stands before
/// them under other names; and its members change nothing under other names.
pub proof fn lemma_common_round_trip(base: Members, c: CommonView)
    requires
        reads_back(c.source_id),
        forall|key: Seq<char>| is_common_key(key) ==> member(base, key) is None,
    ensures
        common_of(common_members(base, c)) == Ok::<CommonView, DecodeFailure>(c),
        forall|key: Seq<char>|
            !is_common_key(key) ==> member(common_members(base, c), key) == member(base, key),
{
    broadcast use lemma_member_push;

    lemma_video_source_keys();
    assert(is_common_key("resolution"@));
    assert(is_common_key("framerate"@));
    assert(is_common_key("fps"@));
    assert(is_common_key("rotate"@));
    assert(is_common_key("rotate_fixed_angle"@));
    assert(is_common_key("flip"@));
    assert(is_common_key("crop"@));
    if c.framerate is Some {
        crate::decode::lemma_unsigned_json(c.framerate->Some_0 as nat, u32::MAX as nat);
    }
    if c.resolution is Some {
        lemma_resolution_round_trip(c.resolution->Some_0);
    }
    if c.rotate_fixed_angle is Some {
        lemma_named_round_trip(c.rotate_fixed_angle->Some_0);
    }
    if c.flip is Some {
        lemma_named_round_trip(c.flip->Some_0);
    }
    if c.crop is Some {
        lemma_crop_round_trip(c.crop->Some_0);
    }
}

impl CommonVideoSourceProperties {
    /// Decodes the common part from the members of an object.
    pub fn from_members(members: &Vec<Member>) -> (out: Result<
        CommonVideoSourceProperties,
        DecodeError,
    >)
        ensures
            outcome(out) == common_of(members_view(members@)),
    {
        let source_id = match find_member(members, "source_id") {
            Some(value) => Uuid::from_json(value)?,
            None => {
                return Err(missing("source_id"));
            },
        };
        let resolution = Resolution::read_opt(find_present(members, "resolution"))?;
        let framerate = read_opt_u32(find_present(members, "framerate"))?;
        let fps = read_opt_u32(find_present(members, "fps"))?;
        let rotate = Number::read_opt(find_present(members, "rotate"))?;
        let rotate_fixed_angle = read_opt_named::<RotateDirection>(
            find_present(members, "rotate_fixed_angle"),
        )?;
        let flip = read_opt_named::<FlipDirection>(find_present(members, "flip"))?;
        let crop = Crop::read_opt(find_present(members, "crop"))?;
        Ok(
            CommonVideoSourceProperties {
                source_id,
                resolution,
                framerate: if framerate.is_some() {
                    framerate
                } else {
                    fps
                },
                rotate,
                rotate_fixed_angle,
                flip,
                crop,
            },
        )
    }

    /// Appends the members of the common part to `members`.
    pub fn write_members(&self, members: &mut Vec<Member>)
        ensures
            members_view(final(members)@) == common_members(members_view(old(members)@), self@),
            reads_back(self.source_id),
    {
        push_member(members, "source_id", self.source_id.to_json());
        push_some(members, "resolution", Resolution::opt_to_json(self.resolution));
        push_some(members, "framerate", json_of_opt_u32(self.framerate));
        push_some(members, "rotate", Number::opt_to_json(&self.rotate));
        push_some(members, "rotate_fixed_angle", write_opt_named(self.rotate_fixed_angle));
        push_some(members, "flip", write_opt_named(self.flip));
        push_some(members, "crop", Crop::opt_to_json(self.crop));
    }
}

// ---------------------------------------------------------------------------
// Runtimes: where a source is found once it runs

/// A place to read video from, and what it is called.
pub struct EndpointView {
    pub uri: Seq<char>,
    pub name: Seq<char>,
}

/// The endpoint that a JSON object describes, if it describes one: a URL
/// under `uri` and a string under `name`.
pub open spec fn endpoint_of(value: JsonValue) -> Option<EndpointView> {
    match value {
        JsonValue::Object(m) => match (member(m, "uri"@), member(m, "name"@)) {
            (Some(uri), Some(name)) => match (url_of(uri), text_of(name)) {
                (Ok(u), Ok(n)) => Some(EndpointView { uri: u, name: n }),
                _ => None,
            },
            _ => None,
        },
        _ => None,
    }
}

/// The JSON object of an endpoint.
pub open spec fn endpoint_json(e: EndpointView) -> JsonValue {
    JsonValue::Object(
        with(
            with(Seq::empty(), "uri"@, JsonValue::Text(e.uri)),
            "name"@,
            JsonValue::Text(e.name),
        ),
    )
}

/// An endpoint with a URL in normal form is read back from its object.
pub proof fn lemma_endpoint_round_trip(e: EndpointView)
    requires
        is_url(e.uri),
    ensures
        endpoint_of(endpoint_json(e)) == Some(e),
{
    broadcast use lemma_member_push;

    lemma_runtime_keys();
}

/// Reads an endpoint from a JSON object.
fn read_endpoint(value: &Json) -> (out: Option<(Url, String)>)
    ensures
        match out {
            Some(pair) => endpoint_of(value@) == Some(EndpointView { uri: pair.0@, name: pair.1@ }),
            None => endpoint_of(value@) is None,
        },
{
    match value {
        Json::Object(members) => {
            proof {
                lemma_object_view(*members);
            }
            match (find_member(members, "uri"), find_member(members, "name")) {
                (Some(uri), Some(name)) => match (Url::from_json(uri), read_text(name)) {
                    (Ok(u), Ok(n)) => Some((u, n)),
                    _ => None,
                },
                _ => None,
            }
        },
        _ => None,
    }
}

/// Writes an endpoint as a JSON object.
fn write_endpoint(uri: &Url, name: &String) -> (out: Json)
    ensures
        out@ == endpoint_json(EndpointView { uri: uri@, name: name@ }),
        is_url(uri@),
{
    let mut members: Vec<Member> = Vec::new();
    assert(members_view(members@) =~= Seq::empty());
    push_member(&mut members, "uri", uri.to_json());
    push_member(&mut members, "name", Json::Text(name.clone()));
    proof {
        lemma_object_view(members);
    }
    Json::Object(members)
}

/// A USB camera as it is found on the machine that runs the pipeline.
#[derive(Clone, Debug, PartialEq, Eq)]
pub struct UsbCameraRuntime {
    /// Local USB camera URI, such as `file:///dev/video0`.
    pub uri: Url,
    /// Camera name.
    pub name: String,
}

/// A CSI camera as it is found on the machine that runs the pipeline.
#[derive(Clone, Debug, PartialEq, Eq)]
pub struct CsiCameraRuntime {
    /// Local CSI camera URI, such as `file:///dev/video0`.
    pub uri: Url,
    /// Camera name.
    pub name: String,
}

/// A stream that is read in real time.
#[derive(Clone, Debug, PartialEq, Eq)]
pub struct InputRtspStreamRuntime {
    /// Stream URI, such as `rtsp://192.168.0.42:554/hd_stream`.
    pub uri: Url,
    /// Stream name.
    pub name: String,
}

/// A WebRTC stream. Nothing is known of it yet.
#[derive(Clone, Debug, PartialEq, Eq)]
pub struct InputWebRtcStreamRuntime {}

/// A stream that is read from files behind URLs, not in real time.
#[derive(Clone, Debug, PartialEq, Eq)]
pub struct InputUrlFileStreamRuntime {
    /// Stream name.
    pub name: String,
    /// URLs such as `http`, `https` or `file`; at least one.
    pub urls: vec1::Vec1<Url>,
}

/// A stream that is read from files kept by the service, not in real time.
#[derive(Clone, Debug, PartialEq, Eq)]
pub struct InputLumeoFileStreamRuntime {
    /// Stream name.
    pub name: String,
    /// Identifiers of the files; at least one.
    pub file_ids: vec1::Vec1<Uuid>,
}

impl View for UsbCameraRuntime {
    type V = EndpointView;

    open spec fn view(&self) -> EndpointView {
        EndpointView { uri: self.uri@, name: self.name@ }
    }
}

impl View for CsiCameraRuntime {
    type V = EndpointView;

    open spec fn view(&self) -> EndpointView {
        EndpointView { uri: self.uri@, name: self.name@ }
    }
}

impl View for InputRtspStreamRuntime {
    type V = EndpointView;

    open spec fn view(&self) -> EndpointView {
        EndpointView { uri: self.uri@, name: self.name@ }
    }
}

/// The mathematical value of an `InputUrlFileStreamRuntime`.
pub struct UrlFileView {
    pub name: Seq<char>,
    pub urls: Seq<Seq<char>>,
}

/// The mathematical value of an `InputLumeoFileStreamRuntime`.
pub struct LumeoFileView {
    pub name: Seq<char>,
    pub file_ids: Seq<Uuid>,
}

impl View for InputUrlFileStreamRuntime {
    type V = UrlFileView;

    open spec fn view(&self) -> UrlFileView {
        UrlFileView { name: self.name@, urls: list_view(urls_in(self.urls)) }
    }
}

impl View for InputLumeoFileStreamRuntime {
    type V = LumeoFileView;

    open spec fn view(&self) -> LumeoFileView {
        LumeoFileView { name: self.name@, file_ids: ids_in(self.file_ids) }
    }
}

/// The URLs that a JSON array of strings spells, where there is at least one
/// and each is a URL.
pub open spec fn urls_of(value: JsonValue) -> Option<Seq<Seq<char>>> {
    match value {
        JsonValue::Array(items) => if items.len() > 0 && (forall|i: int|
            0 <= i < items.len() ==> (#[trigger] url_of(items[i])) is Ok) {
            Some(Seq::new(items.len(), |i: int| url_of(items[i])->Ok_0))
        } else {
            None
        },
        _ => None,
    }
}

/// The identifiers that a JSON array of strings spells, where there is at
/// least one and each is a UUID.
pub open spec fn ids_of(value: JsonValue) -> Option<Seq<Uuid>> {
    match value {
        JsonValue::Array(items) => if items.len() > 0 && (forall|i: int|
            0 <= i < items.len() ==> (#[trigger] uuid_of(items[i])) is Ok) {
            Some(Seq::new(items.len(), |i: int| uuid_of(items[i])->Ok_0))
        } else {
            None
        },
        _ => None,
    }
}

/// The JSON array of a list of URLs.
pub open spec fn urls_json(urls: Seq<Seq<char>>) -> JsonValue {
    JsonValue::Array(Seq::new(urls.len(), |i: int| JsonValue::Text(urls[i])))
}

/// The JSON array of a list of identifiers.
pub open spec fn ids_json(ids: Seq<Uuid>) -> JsonValue {
    JsonValue::Array(Seq::new(ids.len(), |i: int| JsonValue::Text(hyphenated(ids[i].value))))
}

/// Every URL of `urls` is in normal form.
pub open spec fn all_urls(urls: Seq<Seq<char>>) -> bool {
    forall|i: int| 0 <= i < urls.len() ==> is_url(#[trigger] urls[i])
}

/// A list of URLs in normal form, not empty, is read back from its array.
pub proof fn lemma_urls_round_trip(urls: Seq<Seq<char>>)
    requires
        urls.len() > 0,
        all_urls(urls),
    ensures
        urls_of(urls_json(urls)) == Some(urls),
{
    let items = urls_json(urls)->Array_0;
    assert forall|i: int| 0 <= i < items.len() implies (#[trigger] url_of(items[i])) is Ok by {}
    assert(Seq::new(items.len(), |i: int| url_of(items[i])->Ok_0) =~= urls) by {
        assert forall|i: int| 0 <= i < urls.len() implies url_of(items[i])->Ok_0 == urls[i] by {}
    }
}

/// Every identifier of `ids` reads back from its spelling.
pub open spec fn all_read_back(ids: Seq<Uuid>) -> bool {
    forall|i: int| 0 <= i < ids.len() ==> reads_back(#[trigger] ids[i])
}

/// A list of identifiers, not empty, is read back from its array.
pub proof fn lemma_ids_round_trip(ids: Seq<Uuid>)
    requires
        ids.len() > 0,
        all_read_back(ids),
    ensures
        ids_of(ids_json(ids)) == Some(ids),
{
    let items = ids_json(ids)->Array_0;
    assert forall|i: int| 0 <= i < items.len() implies (#[trigger] uuid_of(items[i])) is Ok by {}
    assert(Seq::new(items.len(), |i: int| uuid_of(items[i])->Ok_0) =~= ids) by {
        assert forall|i: int| 0 <= i < ids.len() implies uuid_of(items[i])->Ok_0 == ids[i] by {}
    }
}

/// Reads a list of URLs from a JSON array.
fn read_urls(value: &Json) -> (out: Option<vec1::Vec1<Url>>)
    ensures
        match out {
            Some(list) => urls_of(value@) == Some(list_view(urls_in(list))),
            None => urls_of(value@) is None,
        },
{
    match value {
        Json::Array(items) => {
            proof {
                lemma_array_view(*items);
            }
            let ghost values = items_view(items@);
            let mut urls: Vec<Url> = Vec::new();
            let mut i: usize = 0;
            while i < items.len()
                invariant
                    i <= items@.len(),
                    values == items_view(items@),
                    value@ == JsonValue::Array(values),
                    urls@.len() == i,
                    forall|k: int|
                        0 <= k < i ==> (#[trigger] url_of(values[k])) == Ok::<
                            Seq<char>,
                            DecodeFailure,
                        >(urls@[k]@),
                decreases items@.len() - i,
            {
                match Url::from_json(&items[i]) {
                    Ok(url) => {
                        urls.push(url);
                    },
                    Err(_) => {
                        assert(url_of(values[i as int]) is Err);
                        return None;
                    },
                }
                i = i + 1;
            }
            match url_list_from(urls) {
                Some(list) => {
                    Some(list)
                },
                None => None,
            }
        },
        _ => None,
    }
}

/// Reads a list of identifiers from a JSON array.
fn read_ids(value: &Json) -> (out: Option<vec1::Vec1<Uuid>>)
    ensures
        match out {
            Some(list) => ids_of(value@) == Some(ids_in(list)),
            None => ids_of(value@) is None,
        },
{
    match value {
        Json::Array(items) => {
            proof {
                lemma_array_view(*items);
            }
            let ghost values = items_view(items@);
            let mut ids: Vec<Uuid> = Vec::new();
            let mut i: usize = 0;
            while i < items.len()
                invariant
                    i <= items@.len(),
                    values == items_view(items@),
                    value@ == JsonValue::Array(values),
                    ids@.len() == i,
                    forall|k: int|
                        0 <= k < i ==> (#[trigger] uuid_of(values[k])) == Ok::<Uuid, DecodeFailure>(
                            ids@[k],
                        ),
                decreases items@.len() - i,
            {
                match Uuid::from_json(&items[i]) {
                    Ok(id) => {
                        ids.push(id);
                    },
                    Err(_) => {
                        assert(uuid_of(values[i as int]) is Err);
                        return None;
                    },
                }
                i = i + 1;
            }
            match id_list_from(ids) {
                Some(list) => {
                    Some(list)
                },
                None => None,
            }
        },
        _ => None,
    }
}

/// Writes a list of URLs as a JSON array.
fn write_urls(list: &vec1::Vec1<Url>) -> (out: Json)
    ensures
        out@ == urls_json(list_view(urls_in(*list))),
        urls_in(*list).len() > 0,
        all_urls(list_view(urls_in(*list))),
{
    let urls = url_list_items(list);
    let mut items: Vec<Json> = Vec::new();
    let mut i: usize = 0;
    while i < urls.len()
        invariant
            i <= urls@.len(),
            items@.len() == i,
            forall|k: int|
                0 <= k < i ==> (#[trigger] items@[k])@ == JsonValue::Text(urls@[k]@) && is_url(
                    urls@[k]@,
                ),
        decreases urls@.len() - i,
    {
        items.push(urls[i].to_json());
        i = i + 1;
    }
    proof {
        lemma_array_view(items);
        assert(items_view(items@) =~= urls_json(list_view(urls_in(*list)))->Array_0);
        assert forall|k: int| 0 <= k < urls@.len() implies is_url(
            #[trigger] list_view(urls_in(*list))[k],
        ) by {
            assert(items@[k]@ == JsonValue::Text(urls@[k]@));
        }
    }
    Json::Array(items)
}

/// Writes a list of identifiers as a JSON array.
fn write_ids(list: &vec1::Vec1<Uuid>) -> (out: Json)
    ensures
        out@ == ids_json(ids_in(*list)),
        ids_in(*list).len() > 0,
        all_read_back(ids_in(*list)),
{
    let ids = id_list_items(list);
    let mut items: Vec<Json> = Vec::new();
    let mut i: usize = 0;
    while i < ids.len()
        invariant
            i <= ids@.len(),
            items@.len() == i,
            forall|k: int|
                0 <= k < i ==> (#[trigger] items@[k])@ == JsonValue::Text(
                    hyphenated(ids@[k].value),
                ) && reads_back(ids@[k]),
        decreases ids@.len() - i,
    {
        items.push(ids[i].to_json());
        i = i + 1;
    }
    proof {
        lemma_array_view(items);
        assert(items_view(items@) =~= ids_json(ids_in(*list))->Array_0);
        assert forall|k: int| 0 <= k < ids@.len() implies reads_back(
            #[trigger] ids_in(*list)[k],
        ) by {
            assert(items@[k]@ == JsonValue::Text(hyphenated(ids@[k].value)));
        }
    }
    Json::Array(items)
}

/// The URL-file runtime that a JSON object describes, if it describes one.
pub open spec fn url_file_of(value: JsonValue) -> Option<UrlFileView> {
    match value {
        JsonValue::Object(m) => match (member(m, "name"@), member(m, "urls"@)) {
            (Some(name), Some(urls)) => match (text_of(name), urls_of(urls)) {
                (Ok(n), Some(u)) => Some(UrlFileView { name: n, urls: u }),
                _ => None,
            },
            _ => None,
        },
        _ => None,
    }
}

/// The file runtime that a JSON object describes, if it describes one.
pub open spec fn lumeo_file_of(value: JsonValue) -> Option<LumeoFileView> {
    match value {
        JsonValue::Object(m) => match (member(m, "name"@), member(m, "file_ids"@)) {
            (Some(name), Some(ids)) => match (text_of(name), ids_of(ids)) {
                (Ok(n), Some(i)) => Some(LumeoFileView { name: n, file_ids: i }),
                _ => None,
            },
            _ => None,
        },
        _ => None,
    }
}

/// The JSON object of a URL-file runtime.
pub open spec fn url_file_json(r: UrlFileView) -> JsonValue {
    JsonValue::Object(
        with(with(Seq::empty(), "name"@, JsonValue::Text(r.name)), "urls"@, urls_json(r.urls)),
    )
}

/// The JSON object of a file runtime.
pub open spec fn lumeo_file_json(r: LumeoFileView) -> JsonValue {
    JsonValue::Object(
        with(
            with(Seq::empty(), "name"@, JsonValue::Text(r.name)),
            "file_ids"@,
            ids_json(r.file_ids),
        ),
    )
}

/// A URL-file runtime is read back from its object.
pub proof fn lemma_url_file_round_trip(r: UrlFileView)
    requires
        r.urls.len() > 0,
        all_urls(r.urls),
    ensures
        url_file_of(url_file_json(r)) == Some(r),
{
    broadcast use lemma_member_push;

    lemma_runtime_keys();
    lemma_urls_round_trip(r.urls);
}

/// A file runtime is read back from its object.
pub proof fn lemma_lumeo_file_round_trip(r: LumeoFileView)
    requires
        r.file_ids.len() > 0,
        all_read_back(r.file_ids),
    ensures
        lumeo_file_of(lumeo_file_json(r)) == Some(r),
{
    broadcast use lemma_member_push;

    lemma_runtime_keys();
    lemma_ids_round_trip(r.file_ids);
}

impl InputUrlFileStreamRuntime {
    /// Reads a URL-file runtime from a JSON object.
    pub fn from_json(value: &Json) -> (out: Option<InputUrlFileStreamRuntime>)
        ensures
            option_view(out) == url_file_of(value@),
    {
        match value {
            Json::Object(members) => {
                proof {
                    lemma_object_view(*members);
                }
                match (find_member(members, "name"), find_member(members, "urls")) {
                    (Some(name), Some(urls)) => match (read_text(name), read_urls(urls)) {
                        (Ok(n), Some(u)) => Some(InputUrlFileStreamRuntime { name: n, urls: u }),
                        _ => None,
                    },
                    _ => None,
                }
            },
            _ => None,
        }
    }

    /// Writes this runtime as a JSON object.
    pub fn to_json(&self) -> (out: Json)
        ensures
            out@ == url_file_json(self@),
            self@.urls.len() > 0,
            all_urls(self@.urls),
    {
        let mut members: Vec<Member> = Vec::new();
        assert(members_view(members@) =~= Seq::empty());
        push_member(&mut members, "name", Json::Text(self.name.clone()));
        push_member(&mut members, "urls", write_urls(&self.urls));
        proof {
            lemma_object_view(members);
        }
        Json::Object(members)
    }
}

impl InputLumeoFileStreamRuntime {
    /// Reads a file runtime from a JSON object.
    pub fn from_json(value: &Json) -> (out: Option<InputLumeoFileStreamRuntime>)
        ensures
            option_view(out) == lumeo_file_of(value@),
    {
        match value {
            Json::Object(members) => {
                proof {
                    lemma_object_view(*members);
                }
                match (find_member(members, "name"), find_member(members, "file_ids")) {
                    (Some(name), Some(ids)) => match (read_text(name), read_ids(ids)) {
                        (Ok(n), Some(i)) => Some(
                            InputLumeoFileStreamRuntime { name: n, file_ids: i },
                        ),
                        _ => None,
                    },
                    _ => None,
                }
            },
            _ => None,
        }
    }

    /// Writes this runtime as a JSON object.
    pub fn to_json(&self) -> (out: Json)
        ensures
            out@ == lumeo_file_json(self@),
            self@.file_ids.len() > 0,
            all_read_back(self@.file_ids),
    {
        let mut members: Vec<Member> = Vec::new();
        assert(members_view(members@) =~= Seq::empty());
        push_member(&mut members, "name", Json::Text(self.name.clone()));
        push_member(&mut members, "file_ids", write_ids(&self.file_ids));
        proof {
            lemma_object_view(members);
        }
        Json::Object(members)
    }
}

// ---------------------------------------------------------------------------
// Camera runtimes

/// Where a camera is found once the pipeline runs.
#[derive(Clone, Debug, PartialEq, Eq)]
pub enum CameraRuntime {
    Usb(UsbCameraRuntime),
    Csi(CsiCameraRuntime),
}

/// The mathematical value of a `CameraRuntime`.
pub enum CameraRuntimeView {
    Usb(EndpointView),
    Csi(EndpointView),
}

impl View for CameraRuntime {
    type V = CameraRuntimeView;

    open spec fn view(&self) -> CameraRuntimeView {
        match self {
            CameraRuntime::Usb(r) => CameraRuntimeView::Usb(r@),
            CameraRuntime::Csi(r) => CameraRuntimeView::Csi(r@),
        }
    }
}

impl CameraRuntimeView {
    /// The URL of the camera.
    pub open spec fn uri(self) -> Seq<char> {
        match self {
            CameraRuntimeView::Usb(e) => e.uri,
            CameraRuntimeView::Csi(e) => e.uri,
        }
    }

    /// The name of the camera.
    pub open spec fn name(self) -> Seq<char> {
        match self {
            CameraRuntimeView::Usb(e) => e.name,
            CameraRuntimeView::Csi(e) => e.name,
        }
    }

    /// The URL is in normal form.
    pub open spec fn valid(self) -> bool {
        is_url(self.uri())
    }
}

/// `key` names the member of a camera runtime.
pub open spec fn is_camera_runtime_key(key: Seq<char>) -> bool {
    key == "usb"@ || key == "csi"@
}

/// The keys that name the member of a camera runtime.
pub open spec fn camera_runtime_keys() -> spec_fn(Seq<char>) -> bool {
    |key: Seq<char>| is_camera_runtime_key(key)
}

/// The camera runtime among the members of an object: that of the first
/// member, in the order of the object, that goes by `usb` or `csi`. A member
/// that does not describe an endpoint leaves the runtime unset, as does the
/// absence of both.
pub open spec fn camera_runtime_of(m: Members) -> Option<CameraRuntimeView> {
    match first_key(m, camera_runtime_keys()) {
        None => None,
        Some(key) => match member(m, key) {
            None => None,
            Some(value) => match endpoint_of(value) {
                None => None,
                Some(e) => if key == "usb"@ {
                    Some(CameraRuntimeView::Usb(e))
                } else {
                    Some(CameraRuntimeView::Csi(e))
                },
            },
        },
    }
}

/// The first member whose key names a camera runtime.
fn first_camera_member(members: &Vec<Member>) -> (found: Option<&Member>)
    ensures
        match found {
            Some(m) => first_key(members_view(members@), camera_runtime_keys()) == Some(m.key@),
            None => first_key(members_view(members@), camera_runtime_keys()) is None,
        },
{
    let ghost all = members_view(members@);
    let mut i: usize = 0;
    assert(all.skip(0) =~= all);
    while i < members.len()
        invariant
            i <= members@.len(),
            all == members_view(members@),
            first_key(all, camera_runtime_keys()) == first_key(
                all.skip(i as int),
                camera_runtime_keys(),
            ),
        decreases members@.len() - i,
    {
        assert(all.skip(i as int).drop_first() =~= all.skip(i + 1));
        let key = members[i].key.as_str();
        if key.eq("usb") || key.eq("csi") {
            return Some(&members[i]);
        }
        i = i + 1;
    }
    None
}

/// `base` and the member of a camera runtime, where there is one.
pub open spec fn camera_runtime_members(base: Members, r: Option<CameraRuntimeView>) -> Members {
    match r {
        Some(CameraRuntimeView::Usb(e)) => with(base, "usb"@, endpoint_json(e)),
        Some(CameraRuntimeView::Csi(e)) => with(base, "csi"@, endpoint_json(e)),
        None => base,
    }
}

impl CameraRuntime {
    /// The URL of the camera.
    pub fn uri(&self) -> (out: &Url)
        ensures
            out@ == self@.uri(),
    {
        match self {
            CameraRuntime::Usb(r) => &r.uri,
            CameraRuntime::Csi(r) => &r.uri,
        }
    }

    /// The name of the camera.
    pub fn name(&self) -> (out: &str)
        ensures
            out@ == self@.name(),
    {
        match self {
            CameraRuntime::Usb(r) => r.name.as_str(),
            CameraRuntime::Csi(r) => r.name.as_str(),
        }
    }

    /// Reads the camera runtime among the members of an object.
    pub fn from_members(members: &Vec<Member>) -> (out: Option<CameraRuntime>)
        ensures
            option_view(out) == camera_runtime_of(members_view(members@)),
    {
        let first = match first_camera_member(members) {
            Some(m) => m,
            None => {
                return None;
            },
        };
        let key = first.key.as_str();
        let value = match find_member(members, key) {
            Some(value) => value,
            None => {
                return None;
            },
        };
        match read_endpoint(value) {
            Some(pair) => if key.eq("usb") {
                Some(CameraRuntime::Usb(UsbCameraRuntime { uri: pair.0, name: pair.1 }))
            } else {
                Some(CameraRuntime::Csi(CsiCameraRuntime { uri: pair.0, name: pair.1 }))
            },
            None => None,
        }
    }

    /// Appends the member of this runtime to `members`.
    pub fn write_members(&self, members: &mut Vec<Member>)
        ensures
            members_view(final(members)@) == camera_runtime_members(
                members_view(old(members)@),
                Some(self@),
            ),
            self@.valid(),
    {
        match self {
            CameraRuntime::Usb(r) => push_member(members, "usb", write_endpoint(&r.uri, &r.name)),
            CameraRuntime::Csi(r) => push_member(members, "csi", write_endpoint(&r.uri, &r.name)),
        }
    }
}

// ---------------------------------------------------------------------------
// Stream runtimes

/// Where a stream is found once the pipeline runs.
#[derive(Clone, Debug, PartialEq, Eq)]
pub enum InputStreamRuntime {
    /// A stream from URLs, such as `http`, `https` and `file`, not in real time.
    UrlFile(InputUrlFileStreamRuntime),
    /// A stream from files kept by the service, such as saved clips, not in
    /// real time.
    LumeoFile(InputLumeoFileStreamRuntime),
    /// Despite the name, any stream behind a URI that is to be taken as real
    /// time, `rtsp`, `http`, `https` and `file` included.
    Rtsp(InputRtspStreamRuntime),
    WebRtc(InputWebRtcStreamRuntime),
}

/// The mathematical value of an `InputStreamRuntime`.
pub enum StreamRuntimeView {
    UrlFile(UrlFileView),
    LumeoFile(LumeoFileView),
    Rtsp(EndpointView),
    WebRtc,
}

impl View for InputStreamRuntime {
    type V = StreamRuntimeView;

    open spec fn view(&self) -> StreamRuntimeView {
        match self {
            InputStreamRuntime::UrlFile(r) => StreamRuntimeView::UrlFile(r@),
            InputStreamRuntime::LumeoFile(r) => StreamRuntimeView::LumeoFile(r@),
            InputStreamRuntime::Rtsp(r) => StreamRuntimeView::Rtsp(r@),
            InputStreamRuntime::WebRtc(_) => StreamRuntimeView::WebRtc,
        }
    }
}

impl StreamRuntimeView {
    /// The URL of the stream where there is exactly one: that of a real-time
    /// stream, or the only URL of a URL-file stream. With several URLs it is
    /// not clear which to take, so none is.
    pub open spec fn uri(self) -> Option<Seq<char>> {
        match self {
            StreamRuntimeView::LumeoFile(_) => None,
            StreamRuntimeView::Rtsp(e) => Some(e.uri),
            StreamRuntimeView::UrlFile(r) => if r.urls.len() == 1 {
                Some(r.urls[0])
            } else {
                None
            },
            StreamRuntimeView::WebRtc => None,
        }
    }

    /// The name of the stream, which all but WebRTC streams have.
    pub open spec fn name(self) -> Option<Seq<char>> {
        match self {
            StreamRuntimeView::LumeoFile(r) => Some(r.name),
            StreamRuntimeView::Rtsp(e) => Some(e.name),
            StreamRuntimeView::UrlFile(r) => Some(r.name),
            StreamRuntimeView::WebRtc => None,
        }
    }

    /// The lists are not empty and the URLs are in normal form.
    pub open spec fn valid(self) -> bool {
        match self {
            StreamRuntimeView::LumeoFile(r) => r.file_ids.len() > 0 && all_read_back(r.file_ids),
            StreamRuntimeView::Rtsp(e) => is_url(e.uri),
            StreamRuntimeView::UrlFile(r) => r.urls.len() > 0 && all_urls(r.urls),
            StreamRuntimeView::WebRtc => true,
        }
    }
}

/// `key` names the member of a stream runtime.
pub open spec fn is_stream_runtime_key(key: Seq<char>) -> bool {
    key == "url_file"@ || key == "lumeo_file"@ || key == "rtsp"@ || key == "web_rtc"@
}

/// The keys that name the member of a stream runtime.
pub open spec fn stream_runtime_keys() -> spec_fn(Seq<char>) -> bool {
    |key: Seq<char>| is_stream_runtime_key(key)
}

/// The stream runtime that `value` describes under the name `key`.
pub open spec fn stream_runtime_under(key: Seq<char>, value: JsonValue) -> Option<
    StreamRuntimeView,
> {
    if key == "url_file"@ {
        match url_file_of(value) {
            Some(r) => Some(StreamRuntimeView::UrlFile(r)),
            None => None,
        }
    } else if key == "lumeo_file"@ {
        match lumeo_file_of(value) {
            Some(r) => Some(StreamRuntimeView::LumeoFile(r)),
            None => None,
        }
    } else if key == "rtsp"@ {
        match endpoint_of(value) {
            Some(e) => Some(StreamRuntimeView::Rtsp(e)),
            None => None,
        }
    } else if value is Object {
        Some(StreamRuntimeView::WebRtc)
    } else {
        None
    }
}

/// The stream runtime among the members of an object: that of the first
/// member, in the order of the object, that goes by `url_file`, `lumeo_file`,
/// `rtsp` or `web_rtc`. A member that does not describe its runtime leaves
/// the runtime unset, as does the absence of all four.
pub open spec fn stream_runtime_of(m: Members) -> Option<StreamRuntimeView> {
    match first_key(m, stream_runtime_keys()) {
        None => None,
        Some(key) => match member(m, key) {
            None => None,
            Some(value) => stream_runtime_under(key, value),
        },
    }
}

/// The first member whose key names a stream runtime.
fn first_stream_member(members: &Vec<Member>) -> (found: Option<&Member>)
    ensures
        match found {
            Some(m) => first_key(members_view(members@), stream_runtime_keys()) == Some(m.key@),
            None => first_key(members_view(members@), stream_runtime_keys()) is None,
        },
{
    let ghost all = members_view(members@);
    let mut i: usize = 0;
    assert(all.skip(0) =~= all);
    while i < members.len()
        invariant
            i <= members@.len(),
            all == members_view(members@),
            first_key(all, stream_runtime_keys()) == first_key(
                all.skip(i as int),
                stream_runtime_keys(),
            ),
        decreases members@.len() - i,
    {
        assert(all.skip(i as int).drop_first() =~= all.skip(i + 1));
        let key = members[i].key.as_str();
        if key.eq("url_file") || key.eq("lumeo_file") || key.eq("rtsp") || key.eq("web_rtc") {
            return Some(&members[i]);
        }
        i = i + 1;
    }
    None
}

/// `base` and the member of a stream runtime, where there is one.
pub open spec fn stream_runtime_members(base: Members, r: Option<StreamRuntimeView>) -> Members {
    match r {
        Some(StreamRuntimeView::UrlFile(x)) => with(base, "url_file"@, url_file_json(x)),
        Some(StreamRuntimeView::LumeoFile(x)) => with(base, "lumeo_file"@, lumeo_file_json(x)),
        Some(StreamRuntimeView::Rtsp(e)) => with(base, "rtsp"@, endpoint_json(e)),
        Some(StreamRuntimeView::WebRtc) => with(base, "web_rtc"@, JsonValue::Object(Seq::empty())),
        None => base,
    }
}

impl InputStreamRuntime {
    /// The URL of the stream, where there is exactly one.
    pub fn uri(&self) -> (out: Option<&Url>)
        ensures
            option_view(out) == self@.uri(),
    {
        match self {
            InputStreamRuntime::LumeoFile(_) => None,
            InputStreamRuntime::Rtsp(r) => Some(&r.uri),
            InputStreamRuntime::UrlFile(r) => {
                let urls = url_list_items(&r.urls);
                if urls.len() == 1 {
                    Some(&urls[0])
                } else {
                    None
                }
            },
            InputStreamRuntime::WebRtc(_) => None,
        }
    }

    /// The name of the stream, which all but WebRTC streams have.
    pub fn name(&self) -> (out: Option<&str>)
        ensures
            option_view(out) == self@.name(),
    {
        match self {
            InputStreamRuntime::LumeoFile(r) => Some(r.name.as_str()),
            InputStreamRuntime::Rtsp(r) => Some(r.name.as_str()),
            InputStreamRuntime::UrlFile(r) => Some(r.name.as_str()),
            InputStreamRuntime::WebRtc(_) => None,
        }
    }

    /// Reads the stream runtime among the members of an object.
    pub fn from_members(members: &Vec<Member>) -> (out: Option<InputStreamRuntime>)
        ensures
            option_view(out) == stream_runtime_of(members_view(members@)),
    {
        let first = match first_stream_member(members) {
            Some(m) => m,
            None => {
                return None;
            },
        };
        let key = first.key.as_str();
        let value = match find_member(members, key) {
            Some(value) => value,
            None => {
                return None;
            },
        };
        if key.eq("url_file") {
            match InputUrlFileStreamRuntime::from_json(value) {
                Some(r) => Some(InputStreamRuntime::UrlFile(r)),
                None => None,
            }
        } else if key.eq("lumeo_file") {
            match InputLumeoFileStreamRuntime::from_json(value) {
                Some(r) => Some(InputStreamRuntime::LumeoFile(r)),
                None => None,
            }
        } else if key.eq("rtsp") {
            match read_endpoint(value) {
                Some(pair) => Some(
                    InputStreamRuntime::Rtsp(InputRtspStreamRuntime { uri: pair.0, name: pair.1 }),
                ),
                None => None,
            }
        } else {
            match value {
                Json::Object(_) => Some(InputStreamRuntime::WebRtc(InputWebRtcStreamRuntime {  })),
                _ => None,
            }
        }
    }

    /// Appends the member of this runtime to `members`.
    pub fn write_members(&self, members: &mut Vec<Member>)
        ensures
            members_view(final(members)@) == stream_runtime_members(
                members_view(old(members)@),
                Some(self@),
            ),
            self@.valid(),
    {
        match self {
            InputStreamRuntime::UrlFile(r) => push_member(members, "url_file", r.to_json()),
            InputStreamRuntime::LumeoFile(r) => push_member(members, "lumeo_file", r.to_json()),
            InputStreamRuntime::Rtsp(r) => push_member(
                members,
                "rtsp",
                write_endpoint(&r.uri, &r.name),
            ),
            InputStreamRuntime::WebRtc(_) => {
                let empty: Vec<Member> = Vec::new();
                proof {
                    lemma_object_view(empty);
                    assert(members_view(empty@) =~= Seq::empty());
                }
                push_member(members, "web_rtc", Json::Object(empty))
            },
        }
    }
}

// ---------------------------------------------------------------------------
// Cameras and streams

/// A camera as a video source.
#[derive(Clone, Debug, PartialEq, Eq)]
pub struct CameraProperties {
    pub common: CommonVideoSourceProperties,
    pub runtime: Option<CameraRuntime>,
}

/// A stream as a video source.
#[derive(Clone, Debug, PartialEq, Eq)]
pub struct InputStreamProperties {
    pub common: CommonVideoSourceProperties,
    pub runtime: Option<InputStreamRuntime>,
}

/// A video source: a camera or a stream, told apart by `source_type`.
#[derive(Clone, Debug, PartialEq, Eq)]
pub enum VideoSourceProperties {
    Camera(CameraProperties),
    Stream(InputStreamProperties),
}

/// The mathematical value of a `CameraProperties`.
pub struct CameraView {
    pub common: CommonView,
    pub runtime: Option<CameraRuntimeView>,
}

/// The mathematical value of an `InputStreamProperties`.
pub struct StreamView {
    pub common: CommonView,
    pub runtime: Option<StreamRuntimeView>,
}

/// The mathematical value of a `VideoSourceProperties`.
pub enum VideoSourceView {
    Camera(CameraView),
    Stream(StreamView),
}

impl View for CameraProperties {
    type V = CameraView;

    open spec fn view(&self) -> CameraView {
        CameraView { common: self.common@, runtime: option_view(self.runtime) }
    }
}

impl View for InputStreamProperties {
    type V = StreamView;

    open spec fn view(&self) -> StreamView {
        StreamView { common: self.common@, runtime: option_view(self.runtime) }
    }
}

impl View for VideoSourceProperties {
    type V = VideoSourceView;

    open spec fn view(&self) -> VideoSourceView {
        match self {
            VideoSourceProperties::Camera(c) => VideoSourceView::Camera(c@),
            VideoSourceProperties::Stream(s) => VideoSourceView::Stream(s@),
        }
    }
}

impl VideoSourceView {
    /// The URL of the source, where its runtime is known and gives exactly one.
    pub open spec fn uri(self) -> Option<Seq<char>> {
        match self {
            VideoSourceView::Camera(c) => match c.runtime {
                Some(r) => Some(r.uri()),
                None => None,
            },
            VideoSourceView::Stream(s) => match s.runtime {
                Some(r) => r.uri(),
                None => None,
            },
        }
    }

    /// The name of the source, where its runtime is known and gives one.
    pub open spec fn name(self) -> Option<Seq<char>> {
        match self {
            VideoSourceView::Camera(c) => match c.runtime {
                Some(r) => Some(r.name()),
                None => None,
            },
            VideoSourceView::Stream(s) => match s.runtime {
                Some(r) => r.name(),
                None => None,
            },
        }
    }

    /// The value of the tag `source_type`.
    pub open spec fn tag(self) -> Seq<char> {
        match self {
            VideoSourceView::Camera(_) => "camera"@,
            VideoSourceView::Stream(_) => "stream"@,
        }
    }

    /// What the source must satisfy to be read back from its members: its
    /// identifiers read back, its URLs are in normal form, its lists are not
    /// empty.
    pub open spec fn valid(self) -> bool {
        match self {
            VideoSourceView::Camera(c) => reads_back(c.common.source_id) && (c.runtime matches Some(
                r,
            ) ==> r.valid()),
            VideoSourceView::Stream(s) => reads_back(s.common.source_id) && (s.runtime matches Some(
                r,
            ) ==> r.valid()),
        }
    }
}

/// `key` names the member of a runtime.
pub open spec fn is_runtime_key(key: Seq<char>) -> bool {
    is_camera_runtime_key(key) || is_stream_runtime_key(key)
}

/// Members that hold nothing under the names of runtimes have no member that
/// goes by such a name.
proof fn lemma_no_runtime_member(m: Members)
    requires
        forall|key: Seq<char>| is_runtime_key(key) ==> member(m, key) is None,
    ensures
        first_key(m, camera_runtime_keys()) is None,
        first_key(m, stream_runtime_keys()) is None,
{
    lemma_first_key(m, camera_runtime_keys());
    lemma_first_key(m, stream_runtime_keys());
    assert forall|i: int| 0 <= i < m.len() implies !is_runtime_key((#[trigger] m[i]).0) by {
        lemma_member_of_entry(m, i);
    }
}

/// `key` is one of the names under which a video source keeps a member.
pub open spec fn is_video_source_key(key: Seq<char>) -> bool {
    key == "source_type"@ || is_common_key(key) || is_runtime_key(key)
}

/// The camera that the members of an object describe.
pub open spec fn camera_of(m: Members) -> Result<CameraView, DecodeFailure> {
    match common_of(m) {
        Ok(common) => Ok(CameraView { common, runtime: camera_runtime_of(m) }),
        Err(e) => Err(e),
    }
}

/// The stream that the members of an object describe.
pub open spec fn stream_of(m: Members) -> Result<StreamView, DecodeFailure> {
    match common_of(m) {
        Ok(common) => Ok(StreamView { common, runtime: stream_runtime_of(m) }),
        Err(e) => Err(e),
    }
}

/// The video source that the members of an object describe: a camera where
/// `source_type` is `camera`, a stream where it is `stream`; any other tag is
/// refused by its value.
pub open spec fn video_source_of(m: Members) -> Result<VideoSourceView, DecodeFailure> {
    match member(m, "source_type"@) {
        None => Err(DecodeFailure::MissingField { field: "source_type"@ }),
        Some(JsonValue::Text(tag)) => if tag == "camera"@ {
            match camera_of(m) {
                Ok(c) => Ok(VideoSourceView::Camera(c)),
                Err(e) => Err(e),
            }
        } else if tag == "stream"@ {
            match stream_of(m) {
                Ok(s) => Ok(VideoSourceView::Stream(s)),
                Err(e) => Err(e),
            }
        } else {
            Err(DecodeFailure::UnknownVariant { family: Family::SourceType, value: tag })
        },
        Some(_) => Err(DecodeFailure::Unexpected { expected: Expected::Text }),
    }
}

/// `base` and the members of a video source: its tag, the common part, and
/// the member of its runtime where that is known.
pub open spec fn video_source_members(base: Members, v: VideoSourceView) -> Members {
    let tagged = with(base, "source_type"@, JsonValue::Text(v.tag()));
    match v {
        VideoSourceView::Camera(c) => camera_runtime_members(
            common_members(tagged, c.common),
            c.runtime,
        ),
        VideoSourceView::Stream(s) => stream_runtime_members(
            common_members(tagged, s.common),
            s.runtime,
        ),
    }
}

/// A valid video source is read back from its members, whatever stands
/// before them under other names; and its members change nothing under other
/// names.
pub proof fn lemma_video_source_round_trip(base: Members, v: VideoSourceView)
    requires
        v.valid(),
        forall|key: Seq<char>| is_video_source_key(key) ==> member(base, key) is None,
    ensures
        video_source_of(video_source_members(base, v)) == Ok::<VideoSourceView, DecodeFailure>(v),
        forall|key: Seq<char>|
            !is_video_source_key(key) ==> member(video_source_members(base, v), key) == member(
                base,
                key,
            ),
{
    broadcast use lemma_member_push;

    lemma_video_source_keys();
    let tagged = with(base, "source_type"@, JsonValue::Text(v.tag()));
    let flat = video_source_members(base, v);
    assert(is_runtime_key("usb"@) && is_runtime_key("csi"@) && is_runtime_key("url_file"@)
        && is_runtime_key("lumeo_file"@) && is_runtime_key("rtsp"@) && is_runtime_key("web_rtc"@));
    assert(!is_common_key("source_type"@) && !is_common_key("usb"@) && !is_common_key("csi"@)
        && !is_common_key("url_file"@) && !is_common_key("lumeo_file"@) && !is_common_key("rtsp"@)
        && !is_common_key("web_rtc"@));
    assert forall|key: Seq<char>| is_common_key(key) implies member(tagged, key) is None by {
        assert(is_video_source_key(key));
    }
    match v {
        VideoSourceView::Camera(c) => {
            let m1 = common_members(tagged, c.common);
            lemma_common_round_trip(tagged, c.common);
            assert forall|key: Seq<char>| is_common_key(key) implies member(flat, key) == member(
                m1,
                key,
            ) by {}
            lemma_common_depends(flat, m1);
            assert forall|key: Seq<char>| is_runtime_key(key) implies member(m1, key) is None by {
                assert(is_video_source_key(key));
            }
            lemma_no_runtime_member(m1);
            match c.runtime {
                Some(CameraRuntimeView::Usb(e)) => {
                    lemma_endpoint_round_trip(e);
                    lemma_first_key_push(m1, "usb"@, endpoint_json(e), camera_runtime_keys());
                },
                Some(CameraRuntimeView::Csi(e)) => {
                    lemma_endpoint_round_trip(e);
                    lemma_first_key_push(m1, "csi"@, endpoint_json(e), camera_runtime_keys());
                },
                None => {},
            }
        },
        VideoSourceView::Stream(s) => {
            let m1 = common_members(tagged, s.common);
            lemma_common_round_trip(tagged, s.common);
            assert forall|key: Seq<char>| is_common_key(key) implies member(flat, key) == member(
                m1,
                key,
            ) by {}
            lemma_common_depends(flat, m1);
            assert forall|key: Seq<char>| is_runtime_key(key) implies member(m1, key) is None by {
                assert(is_video_source_key(key));
            }
            lemma_no_runtime_member(m1);
            match s.runtime {
                Some(StreamRuntimeView::UrlFile(r)) => {
                    lemma_url_file_round_trip(r);
                    lemma_first_key_push(m1, "url_file"@, url_file_json(r), stream_runtime_keys());
                },
                Some(StreamRuntimeView::LumeoFile(r)) => {
                    lemma_lumeo_file_round_trip(r);
                    lemma_first_key_push(
                        m1,
                        "lumeo_file"@,
                        lumeo_file_json(r),
                        stream_runtime_keys(),
                    );
                },
                Some(StreamRuntimeView::Rtsp(e)) => {
                    lemma_endpoint_round_trip(e);
                    lemma_first_key_push(m1, "rtsp"@, endpoint_json(e), stream_runtime_keys());
                },
                Some(StreamRuntimeView::WebRtc) => {
                    lemma_first_key_push(
                        m1,
                        "web_rtc"@,
                        JsonValue::Object(Seq::empty()),
                        stream_runtime_keys(),
                    );
                },
                None => {},
            }
        },
    }
}

impl CameraProperties {
    /// Decodes a camera from the members of an object.
    pub fn from_members(members: &Vec<Member>) -> (out: Result<CameraProperties, DecodeError>)
        ensures
            outcome(out) == camera_of(members_view(members@)),
    {
        let common = CommonVideoSourceProperties::from_members(members)?;
        Ok(CameraProperties { common, runtime: CameraRuntime::from_members(members) })
    }
}

impl InputStreamProperties {
    /// Decodes a stream from the members of an object.
    pub fn from_members(members: &Vec<Member>) -> (out: Result<InputStreamProperties, DecodeError>)
        ensures
            outcome(out) == stream_of(members_view(members@)),
    {
        let common = CommonVideoSourceProperties::from_members(members)?;
        Ok(InputStreamProperties { common, runtime: InputStreamRuntime::from_members(members) })
    }
}

impl VideoSourceProperties {
    /// The URL of the source: that of a camera whose runtime is known, or
    /// that of a stream whose runtime gives exactly one.
    pub fn uri(&self) -> (out: Option<&Url>)
        ensures
            option_view(out) == self@.uri(),
    {
        match self {
            VideoSourceProperties::Camera(c) => match &c.runtime {
                Some(r) => Some(r.uri()),
                None => None,
            },
            VideoSourceProperties::Stream(s) => match &s.runtime {
                Some(r) => r.uri(),
                None => None,
            },
        }
    }

    /// The name of the source, where its runtime is known and gives one.
    pub fn name(&self) -> (out: Option<&str>)
        ensures
            option_view(out) == self@.name(),
    {
        match self {
            VideoSourceProperties::Camera(c) => match &c.runtime {
                Some(r) => Some(r.name()),
                None => None,
            },
            VideoSourceProperties::Stream(s) => match &s.runtime {
                Some(r) => r.name(),
                None => None,
            },
        }
    }

    /// The value of the tag `source_type`: `camera` or `stream`.
    pub fn as_str(&self) -> (out: &'static str)
        ensures
            out@ == self@.tag(),
    {
        match self {
            VideoSourceProperties::Camera(_) => "camera",
            VideoSourceProperties::Stream(_) => "stream",
        }
    }

    /// Decodes a video source from the members of an object.
    pub fn from_members(members: &Vec<Member>) -> (out: Result<VideoSourceProperties, DecodeError>)
        ensures
            outcome(out) == video_source_of(members_view(members@)),
    {
        match find_member(members, "source_type") {
            None => Err(missing("source_type")),
            Some(Json::Text(tag)) => {
                if tag.as_str().eq("camera") {
                    Ok(VideoSourceProperties::Camera(CameraProperties::from_members(members)?))
                } else if tag.as_str().eq("stream") {
                    Ok(VideoSourceProperties::Stream(InputStreamProperties::from_members(members)?))
                } else {
                    Err(
                        DecodeError::UnknownVariant {
                            family: Family::SourceType,
                            value: tag.clone(),
                        },
                    )
                }
            },
            Some(_) => Err(DecodeError::Unexpected { expected: Expected::Text }),
        }
    }

    /// Appends the members of this video source to `members`. What was
    /// written reads back as this source.
    pub fn write_members(&self, members: &mut Vec<Member>)
        ensures
            members_view(final(members)@) == video_source_members(
                members_view(old(members)@),
                self@,
            ),
            self@.valid(),
    {
        push_member(members, "source_type", Json::Text(self.as_str().to_owned()));
        match self {
            VideoSourceProperties::Camera(c) => {
                c.common.write_members(members);
                match &c.runtime {
                    Some(r) => r.write_members(members),
                    None => {},
                }
            },
            VideoSourceProperties::Stream(s) => {
                s.common.write_members(members);
                match &s.runtime {
                    Some(r) => r.write_members(members),
                    None => {},
                }
            },
        }
    }
}


} // verus!
