//! The vocabulary that describes streams.

use vstd::prelude::*;

use crate::decode::Family;
use crate::named::Named;

verus! {

/// The transport of a stream.
#[derive(Clone, Copy, Debug, PartialEq, Eq, Structural, Hash)]
pub enum StreamType {
    Rtsp,
    Webrtc,
    File,
}

impl Named for StreamType {
    open spec fn name(self) -> Seq<char> {
        match self {
            StreamType::Rtsp => "rtsp"@,
            StreamType::Webrtc => "webrtc"@,
            StreamType::File => "file"@,
        }
    }

    open spec fn named(name: Seq<char>) -> Option<StreamType> {
        if name == "rtsp"@ {
            Some(StreamType::Rtsp)
        } else if name == "webrtc"@ {
            Some(StreamType::Webrtc)
        } else if name == "file"@ {
            Some(StreamType::File)
        } else {
            None
        }
    }

    open spec fn family() -> Family {
        Family::StreamType
    }

    proof fn lemma_name_reads_back(self) {
        reveal_strlit("rtsp");
        reveal_strlit("webrtc");
        reveal_strlit("file");
        assert("rtsp"@.len() == 4);
        assert("webrtc"@.len() == 6);
        assert("file"@.len() == 4);
        assert("rtsp"@[0] == 'r');
        assert("file"@[0] == 'f');
    }

    fn as_str(self) -> (out: &'static str) {
        match self {
            StreamType::Rtsp => "rtsp",
            StreamType::Webrtc => "webrtc",
            StreamType::File => "file",
        }
    }

    fn from_name(name: &str) -> (out: Option<StreamType>) {
        if name.eq("rtsp") {
            Some(StreamType::Rtsp)
        } else if name.eq("webrtc") {
            Some(StreamType::Webrtc)
        } else if name.eq("file") {
            Some(StreamType::File)
        } else {
            None
        }
    }

    fn kind() -> (out: Family) {
        Family::StreamType
    }
}

/// Where a stream comes from.
#[derive(Clone, Copy, Debug, PartialEq, Eq, Structural, Hash)]
pub enum StreamSource {
    CameraStream,
    UriStream,
    PipelineStream,
}

impl Named for StreamSource {
    open spec fn name(self) -> Seq<char> {
        match self {
            StreamSource::CameraStream => "camera_stream"@,
            StreamSource::UriStream => "uri_stream"@,
            StreamSource::PipelineStream => "pipeline_stream"@,
        }
    }

    open spec fn named(name: Seq<char>) -> Option<StreamSource> {
        if name == "camera_stream"@ {
            Some(StreamSource::CameraStream)
        } else if name == "uri_stream"@ {
            Some(StreamSource::UriStream)
        } else if name == "pipeline_stream"@ {
            Some(StreamSource::PipelineStream)
        } else {
            None
        }
    }

    open spec fn family() -> Family {
        Family::StreamSource
    }

    proof fn lemma_name_reads_back(self) {
        reveal_strlit("camera_stream");
        reveal_strlit("uri_stream");
        reveal_strlit("pipeline_stream");
        assert("camera_stream"@.len() == 13);
        assert("uri_stream"@.len() == 10);
        assert("pipeline_stream"@.len() == 15);
    }

    fn as_str(self) -> (out: &'static str) {
        match self {
            StreamSource::CameraStream => "camera_stream",
            StreamSource::UriStream => "uri_stream",
            StreamSource::PipelineStream => "pipeline_stream",
        }
    }

    fn from_name(name: &str) -> (out: Option<StreamSource>) {
        if name.eq("camera_stream") {
            Some(StreamSource::CameraStream)
        } else if name.eq("uri_stream") {
            Some(StreamSource::UriStream)
        } else if name.eq("pipeline_stream") {
            Some(StreamSource::PipelineStream)
        } else {
            None
        }
    }

    fn kind() -> (out: Family) {
        Family::StreamSource
    }
}

/// Whether a stream is reachable.
#[derive(Clone, Copy, Debug, PartialEq, Eq, Structural, Hash)]
pub enum StreamStatus {
    Online,
    Offline,
    Unknown,
}

impl Named for StreamStatus {
    open spec fn name(self) -> Seq<char> {
        match self {
            StreamStatus::Online => "online"@,
            StreamStatus::Offline => "offline"@,
            StreamStatus::Unknown => "unknown"@,
        }
    }

    open spec fn named(name: Seq<char>) -> Option<StreamStatus> {
        if name == "online"@ {
            Some(StreamStatus::Online)
        } else if name == "offline"@ {
            Some(StreamStatus::Offline)
        } else if name == "unknown"@ {
            Some(StreamStatus::Unknown)
        } else {
            None
        }
    }

    open spec fn family() -> Family {
        Family::StreamStatus
    }

    proof fn lemma_name_reads_back(self) {
        reveal_strlit("online");
        reveal_strlit("offline");
        reveal_strlit("unknown");
        assert("online"@.len() == 6);
        assert("offline"@.len() == 7);
        assert("unknown"@.len() == 7);
        assert("offline"@[0] == 'o');
        assert("unknown"@[0] == 'u');
    }

    fn as_str(self) -> (out: &'static str) {
        match self {
            StreamStatus::Online => "online",
            StreamStatus::Offline => "offline",
            StreamStatus::Unknown => "unknown",
        }
    }

    fn from_name(name: &str) -> (out: Option<StreamStatus>) {
        if name.eq("online") {
            Some(StreamStatus::Online)
        } else if name.eq("offline") {
            Some(StreamStatus::Offline)
        } else if name.eq("unknown") {
            Some(StreamStatus::Unknown)
        } else {
            None
        }
    }

    fn kind() -> (out: Family) {
        Family::StreamStatus
    }
}

} // verus!
