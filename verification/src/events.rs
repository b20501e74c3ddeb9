//! Events that are reported to the service.

use vstd::prelude::*;

use crate::decode::{
    json_of_i32, json_of_text_or_null, option_view, push_member, signed_literal, text_or_null,
    with, Family,
};
use crate::named::{write_named, Named};
use crate::json::{lemma_object_view, members_view, Json, JsonValue, Member};
use crate::uuid::{hyphenated, Uuid};

verus! {

/// How grave an event is.
#[derive(Clone, Copy, Debug, PartialEq, Eq, Structural, Hash)]
pub enum Severity {
    Error,
    Warning,
    Info,
    Debug,
}

impl Named for Severity {
    open spec fn name(self) -> Seq<char> {
        match self {
            Severity::Error => "error"@,
            Severity::Warning => "warning"@,
            Severity::Info => "info"@,
            Severity::Debug => "debug"@,
        }
    }

    open spec fn named(name: Seq<char>) -> Option<Severity> {
        if name == "error"@ {
            Some(Severity::Error)
        } else if name == "warning"@ {
            Some(Severity::Warning)
        } else if name == "info"@ {
            Some(Severity::Info)
        } else if name == "debug"@ {
            Some(Severity::Debug)
        } else {
            None
        }
    }

    open spec fn family() -> Family {
        Family::Severity
    }

    proof fn lemma_name_reads_back(self) {
        reveal_strlit("error");
        reveal_strlit("warning");
        reveal_strlit("info");
        reveal_strlit("debug");
        assert("error"@.len() == 5);
        assert("warning"@.len() == 7);
        assert("info"@.len() == 4);
        assert("debug"@.len() == 5);
        assert("error"@[0] == 'e');
        assert("debug"@[0] == 'd');
    }

    fn as_str(self) -> (out: &'static str) {
        match self {
            Severity::Error => "error",
            Severity::Warning => "warning",
            Severity::Info => "info",
            Severity::Debug => "debug",
        }
    }

    fn from_name(name: &str) -> (out: Option<Severity>) {
        if name.eq("error") {
            Some(Severity::Error)
        } else if name.eq("warning") {
            Some(Severity::Warning)
        } else if name.eq("info") {
            Some(Severity::Info)
        } else if name.eq("debug") {
            Some(Severity::Debug)
        } else {
            None
        }
    }

    fn kind() -> (out: Family) {
        Family::Severity
    }
}

/// The part of the media framework that an error came from.
#[derive(Clone, Copy, Debug, PartialEq, Eq, Structural, Hash)]
pub enum GstErrorDomain {
    Core,
    Library,
    Resource,
    Stream,
}

impl Named for GstErrorDomain {
    open spec fn name(self) -> Seq<char> {
        match self {
            GstErrorDomain::Core => "core"@,
            GstErrorDomain::Library => "library"@,
            GstErrorDomain::Resource => "resource"@,
            GstErrorDomain::Stream => "stream"@,
        }
    }

    open spec fn named(name: Seq<char>) -> Option<GstErrorDomain> {
        if name == "core"@ {
            Some(GstErrorDomain::Core)
        } else if name == "library"@ {
            Some(GstErrorDomain::Library)
        } else if name == "resource"@ {
            Some(GstErrorDomain::Resource)
        } else if name == "stream"@ {
            Some(GstErrorDomain::Stream)
        } else {
            None
        }
    }

    open spec fn family() -> Family {
        Family::GstErrorDomain
    }

    proof fn lemma_name_reads_back(self) {
        reveal_strlit("core");
        reveal_strlit("library");
        reveal_strlit("resource");
        reveal_strlit("stream");
        assert("core"@.len() == 4);
        assert("library"@.len() == 7);
        assert("resource"@.len() == 8);
        assert("stream"@.len() == 6);
    }

    fn as_str(self) -> (out: &'static str) {
        match self {
            GstErrorDomain::Core => "core",
            GstErrorDomain::Library => "library",
            GstErrorDomain::Resource => "resource",
            GstErrorDomain::Stream => "stream",
        }
    }

    fn from_name(name: &str) -> (out: Option<GstErrorDomain>) {
        if name.eq("core") {
            Some(GstErrorDomain::Core)
        } else if name.eq("library") {
            Some(GstErrorDomain::Library)
        } else if name.eq("resource") {
            Some(GstErrorDomain::Resource)
        } else if name.eq("stream") {
            Some(GstErrorDomain::Stream)
        } else {
            None
        }
    }

    fn kind() -> (out: Family) {
        Family::GstErrorDomain
    }
}

impl GstErrorDomain {
    /// The number of this domain in the media framework, from 1 to 4.
    pub fn number(self) -> (out: u8)
        ensures
            out == match self {
                GstErrorDomain::Core => 1u8,
                GstErrorDomain::Library => 2u8,
                GstErrorDomain::Resource => 3u8,
                GstErrorDomain::Stream => 4u8,
            },
    {
        match self {
            GstErrorDomain::Core => 1,
            GstErrorDomain::Library => 2,
            GstErrorDomain::Resource => 3,
            GstErrorDomain::Stream => 4,
        }
    }
}

/// What went wrong in a deployment.
#[derive(Clone, Copy, Debug, PartialEq, Eq, Structural)]
pub enum DeploymentError {
    /// An error of the media framework, by domain and code.
    GstError { domain: GstErrorDomain, code: i32 },
}

/// What an error event is about.
#[derive(Clone, Copy, Debug, PartialEq, Eq, Structural)]
pub enum ErrorData {
    Deployment { deployment_id: Uuid, error: DeploymentError },
}

/// The JSON object of a deployment error: its kind, then its parts.
pub open spec fn deployment_error_json(e: DeploymentError) -> JsonValue {
    match e {
        DeploymentError::GstError { domain, code } => JsonValue::Object(
            with(
                with(
                    with(Seq::empty(), "kind"@, JsonValue::Text("gst_error"@)),
                    "domain"@,
                    JsonValue::Text(domain.name()),
                ),
                "code"@,
                JsonValue::Number(signed_literal(code as int)),
            ),
        ),
    }
}

/// The JSON object of what an error event is about: its kind, then its parts.
pub open spec fn error_data_json(d: ErrorData) -> JsonValue {
    match d {
        ErrorData::Deployment { deployment_id, error } => JsonValue::Object(
            with(
                with(
                    with(Seq::empty(), "kind"@, JsonValue::Text("deployment"@)),
                    "deployment_id"@,
                    JsonValue::Text(hyphenated(deployment_id.value)),
                ),
                "error"@,
                deployment_error_json(error),
            ),
        ),
    }
}

impl DeploymentError {
    /// Encodes this error as a JSON object.
    pub fn to_json(&self) -> (out: Json)
        ensures
            out@ == deployment_error_json(*self),
    {
        match self {
            DeploymentError::GstError { domain, code } => {
                let mut members: Vec<Member> = Vec::new();
                assert(members_view(members@) =~= Seq::empty());
                push_member(&mut members, "kind", Json::Text("gst_error".to_owned()));
                push_member(&mut members, "domain", write_named(*domain));
                push_member(&mut members, "code", json_of_i32(*code));
                proof {
                    lemma_object_view(members);
                }
                Json::Object(members)
            },
        }
    }
}

impl ErrorData {
    /// Encodes what an error event is about as a JSON object.
    pub fn to_json(&self) -> (out: Json)
        ensures
            out@ == error_data_json(*self),
    {
        match self {
            ErrorData::Deployment { deployment_id, error } => {
                let mut members: Vec<Member> = Vec::new();
                assert(members_view(members@) =~= Seq::empty());
                push_member(&mut members, "kind", Json::Text("deployment".to_owned()));
                push_member(&mut members, "deployment_id", deployment_id.to_json());
                push_member(&mut members, "error", error.to_json());
                proof {
                    lemma_object_view(members);
                }
                Json::Object(members)
            },
        }
    }
}

/// An event to report.
#[derive(Clone, Debug, PartialEq, Eq)]
pub struct EventData {
    pub category: String,
    pub event_type: String,
    pub severity: Severity,
    pub payload: Option<String>,
    pub object: Option<String>,
    pub object_id: Option<Uuid>,
}

/// The mathematical value of an `EventData`.
pub struct EventDataView {
    pub category: Seq<char>,
    pub event_type: Seq<char>,
    pub severity: Severity,
    pub payload: Option<Seq<char>>,
    pub object: Option<Seq<char>>,
    pub object_id: Option<Uuid>,
}

impl View for EventData {
    type V = EventDataView;

    open spec fn view(&self) -> EventDataView {
        EventDataView {
            category: self.category@,
            event_type: self.event_type@,
            severity: self.severity,
            payload: option_view(self.payload),
            object: option_view(self.object),
            object_id: self.object_id,
        }
    }
}

/// The JSON object of an event. A part that is unset is `null`.
pub open spec fn event_data_json(e: EventDataView) -> JsonValue {
    let m = with(Seq::empty(), "category"@, JsonValue::Text(e.category));
    let m = with(m, "event_type"@, JsonValue::Text(e.event_type));
    let m = with(m, "severity"@, JsonValue::Text(e.severity.name()));
    let m = with(m, "payload"@, text_or_null(e.payload));
    let m = with(m, "object"@, text_or_null(e.object));
    JsonValue::Object(
        with(
            m,
            "object_id"@,
            match e.object_id {
                Some(id) => JsonValue::Text(hyphenated(id.value)),
                None => JsonValue::Null,
            },
        ),
    )
}

impl EventData {
    /// Encodes this event as a JSON object.
    pub fn to_json(&self) -> (out: Json)
        ensures
            out@ == event_data_json(self@),
    {
        let mut members: Vec<Member> = Vec::new();
        assert(members_view(members@) =~= Seq::empty());
        push_member(&mut members, "category", Json::Text(self.category.clone()));
        push_member(&mut members, "event_type", Json::Text(self.event_type.clone()));
        push_member(&mut members, "severity", write_named(self.severity));
        push_member(&mut members, "payload", json_of_text_or_null(&self.payload));
        push_member(&mut members, "object", json_of_text_or_null(&self.object));
        push_member(
            &mut members,
            "object_id",
            match self.object_id {
                Some(id) => id.to_json(),
                None => Json::Null,
            },
        );
        proof {
            lemma_object_view(members);
        }
        Json::Object(members)
    }
}

} // verus!
