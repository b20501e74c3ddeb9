//! Messages between the service and a gateway.

use vstd::prelude::*;

use crate::json::{Json, JsonValue};

verus! {

/// What can go wrong with a command.
#[derive(Clone, Copy, Debug, PartialEq, Eq, Structural)]
pub enum Error {
    DeserializeCommand,
}

impl Error {
    /// The sentence that reports this error.
    pub fn message(&self) -> (out: &'static str)
        ensures
            out@ == "Failed to deserialize command"@,
    {
        "Failed to deserialize command"
    }
}

/// Trace headers used for distributed tracing: names and values, in order.
#[derive(Clone, Debug, Default, PartialEq, Eq)]
pub struct TraceHeaders(pub Vec<(String, String)>);

/// The views of a list of headers.
pub open spec fn headers_view(headers: Seq<(String, String)>) -> Seq<(Seq<char>, Seq<char>)> {
    Seq::new(headers.len(), |i: int| (headers[i].0@, headers[i].1@))
}

impl View for TraceHeaders {
    type V = Seq<(Seq<char>, Seq<char>)>;

    open spec fn view(&self) -> Seq<(Seq<char>, Seq<char>)> {
        headers_view(self.0@)
    }
}

impl TraceHeaders {
    /// The headers as pairs of string slices, in order.
    pub fn as_iter_str(&self) -> (out: Vec<(&str, &str)>)
        ensures
            out@.len() == self@.len(),
            forall|i: int|
                0 <= i < out@.len() ==> (#[trigger] out@[i]).0@ == self@[i].0 && out@[i].1@
                    == self@[i].1,
    {
        let mut out: Vec<(&str, &str)> = Vec::new();
        let mut i: usize = 0;
        while i < self.0.len()
            invariant
                i <= self.0@.len(),
                out@.len() == i,
                forall|k: int|
                    0 <= k < i ==> (#[trigger] out@[k]).0@ == self.0@[k].0@ && out@[k].1@
                        == self.0@[k].1@,
            decreases self.0@.len() - i,
        {
            out.push((self.0[i].0.as_str(), self.0[i].1.as_str()));
            i = i + 1;
        }
        out
    }
}

/// What a message asks for. The particulars of each request are carried as
/// the JSON value that came with it.
#[derive(Clone, Debug, PartialEq, Eq)]
pub enum Body {
    /// Start pipeline deployment. Gateways that do not know
    /// `RestartDeployment` restart on this.
    StartDeployment(Json),
    /// Restart pipeline deployment
    RestartDeployment(Json),
    /// Stop deployment
    StopDeployment(Json),
    /// Camera commands
    Camera(Json),
    /// WebRTC subcommands collection
    WebRtc(Json),
    /// Snapshot commands
    Snapshot(Json),
    /// Delete gateway command
    DeleteGateway,
}

/// The mathematical value of a `Body`.
pub enum BodyView {
    StartDeployment(JsonValue),
    RestartDeployment(JsonValue),
    StopDeployment(JsonValue),
    Camera(JsonValue),
    WebRtc(JsonValue),
    Snapshot(JsonValue),
    DeleteGateway,
}

impl View for Body {
    type V = BodyView;

    open spec fn view(&self) -> BodyView {
        match self {
            Body::StartDeployment(p) => BodyView::StartDeployment(p@),
            Body::RestartDeployment(p) => BodyView::RestartDeployment(p@),
            Body::StopDeployment(p) => BodyView::StopDeployment(p@),
            Body::Camera(p) => BodyView::Camera(p@),
            Body::WebRtc(p) => BodyView::WebRtc(p@),
            Body::Snapshot(p) => BodyView::Snapshot(p@),
            Body::DeleteGateway => BodyView::DeleteGateway,
        }
    }
}

/// A request: the remote end is expected to respond.
#[derive(Clone, Debug, PartialEq, Eq)]
pub struct Request {
    /// Request body
    pub body: Body,
    /// Response correlation string
    pub respond_to: String,
    /// Trace headers used for distributed tracing.
    pub trace_headers: Option<TraceHeaders>,
}

/// A notification: fire and forget.
#[derive(Clone, Debug, PartialEq, Eq)]
pub struct Notification {
    /// Notification body
    pub body: Body,
    /// Trace headers used for distributed tracing.
    pub trace_headers: Option<TraceHeaders>,
}

/// A message: a request or a notification.
#[derive(Clone, Debug, PartialEq, Eq)]
pub enum Message {
    /// Request
    Request(Request),
    /// Notification
    Notification(Notification),
}

impl Message {
    /// The trace headers of the message, whichever kind it is of.
    pub open spec fn headers(&self) -> Option<TraceHeaders> {
        match self {
            Message::Request(r) => r.trace_headers,
            Message::Notification(n) => n.trace_headers,
        }
    }

    /// The body of the message, whichever kind it is of.
    pub open spec fn content(&self) -> Body {
        match self {
            Message::Request(r) => r.body,
            Message::Notification(n) => n.body,
        }
    }

    /// The trace headers of the message, if it carries any.
    pub fn trace_headers(&self) -> (out: Option<&TraceHeaders>)
        ensures
            out == match self.headers() {
                Some(h) => Some(&h),
                None => None,
            },
    {
        match self {
            Message::Request(r) => r.trace_headers.as_ref(),
            Message::Notification(n) => n.trace_headers.as_ref(),
        }
    }

    /// The body of the message.
    pub fn body(&self) -> (out: &Body)
        ensures
            *out == self.content(),
    {
        match self {
            Message::Request(r) => &r.body,
            Message::Notification(n) => &n.body,
        }
    }
}

} // verus!
