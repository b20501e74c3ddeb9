//! What the service answers when it refuses a request.

use vstd::prelude::*;

use crate::decode::{
    missing, option_view, outcome, read_text, required_text, DecodeError, DecodeFailure, Expected,
};
use crate::json::{find_member, lemma_object_view, member, Json, JsonValue};
use crate::text::concat;

verus! {

/// The kind of thing that was looked for and not found.
#[derive(Clone, Debug, PartialEq, Eq)]
pub enum ResourceNotFound {
    DeploymentNotFound,
    /// A kind that this library does not know, by its name.
    Other(String),
}

/// The mathematical value of a `ResourceNotFound`.
pub enum MissingResource {
    DeploymentNotFound,
    Other(Seq<char>),
}

impl View for ResourceNotFound {
    type V = MissingResource;

    open spec fn view(&self) -> MissingResource {
        match self {
            ResourceNotFound::DeploymentNotFound => MissingResource::DeploymentNotFound,
            ResourceNotFound::Other(name) => MissingResource::Other(name@),
        }
    }
}

/// The kind of resource that goes by `name`.
pub open spec fn resource_named(name: Seq<char>) -> MissingResource {
    if name == "deployment"@ {
        MissingResource::DeploymentNotFound
    } else {
        MissingResource::Other(name)
    }
}

/// The resource that the context of an answer names: the text under
/// `resource` of a context that is an object.
pub open spec fn resource_of_context(context: JsonValue) -> Option<MissingResource> {
    match context {
        JsonValue::Object(m) => match member(m, "resource"@) {
            Some(JsonValue::Text(name)) => Some(resource_named(name)),
            _ => None,
        },
        _ => None,
    }
}

impl ResourceNotFound {
    /// The kind of resource that goes by `name`.
    pub fn from_name(name: &str) -> (out: ResourceNotFound)
        ensures
            out@ == resource_named(name@),
    {
        if name.eq("deployment") {
            ResourceNotFound::DeploymentNotFound
        } else {
            ResourceNotFound::Other(name.to_owned())
        }
    }

    /// The resource that the context of an answer names, if it names one.
    pub fn from_context(context: &Json) -> (out: Option<ResourceNotFound>)
        ensures
            option_view(out) == resource_of_context(context@),
    {
        match context.get("resource") {
            Some(Json::Text(name)) => Some(ResourceNotFound::from_name(name.as_str())),
            _ => None,
        }
    }

    /// A few words for the resource.
    pub fn describe(&self) -> (out: String)
        ensures
            out@ == match self@ {
                MissingResource::DeploymentNotFound => "Deployment"@,
                MissingResource::Other(name) => "Other("@ + name + ")"@,
            },
    {
        match self {
            ResourceNotFound::DeploymentNotFound => "Deployment".to_owned(),
            ResourceNotFound::Other(name) => {
                let head = concat("Other(", name.as_str());
                concat(head.as_str(), ")")
            },
        }
    }
}

impl Default for ResourceNotFound {
    /// An unknown kind without a name.
    fn default() -> (out: ResourceNotFound)
        ensures
            out@ == MissingResource::Other(Seq::empty()),
    {
        ResourceNotFound::Other(String::new())
    }
}

/// An error that the service reports, by its code.
#[derive(Clone, Debug, PartialEq, Eq)]
pub enum ApiError {
    /// The gateway that the access token belonged to has been deleted.
    GatewayDeleted,
    /// User credentials are invalid.
    InvalidCredentials,
    /// Something was looked for and not found.
    ResourceNotFound(ResourceNotFound),
    /// An error that this library does not know, as the service sent it.
    Other { code: String, message: String },
}

/// The mathematical value of an `ApiError`.
pub enum ApiFailure {
    GatewayDeleted,
    InvalidCredentials,
    ResourceNotFound(MissingResource),
    Other { code: Seq<char>, message: Seq<char> },
}

impl View for ApiError {
    type V = ApiFailure;

    open spec fn view(&self) -> ApiFailure {
        match self {
            ApiError::GatewayDeleted => ApiFailure::GatewayDeleted,
            ApiError::InvalidCredentials => ApiFailure::InvalidCredentials,
            ApiError::ResourceNotFound(r) => ApiFailure::ResourceNotFound(r@),
            ApiError::Other { code, message } => ApiFailure::Other {
                code: code@,
                message: message@,
            },
        }
    }
}

impl ApiFailure {
    /// The code under which the service reports this error.
    pub open spec fn code(self) -> Seq<char> {
        match self {
            ApiFailure::GatewayDeleted => "gateway-deleted"@,
            ApiFailure::InvalidCredentials => "invalid-credentials"@,
            ApiFailure::ResourceNotFound(_) => "resource-not-found"@,
            ApiFailure::Other { code, message } => code,
        }
    }
}

/// The error with this code, message and context. A code that is not known
/// gives `Other`; so does `resource-not-found` where the context names no
/// resource.
pub open spec fn api_failure(code: Seq<char>, message: Seq<char>, context: Option<JsonValue>)
    -> ApiFailure {
    if code == "gateway-deleted"@ {
        ApiFailure::GatewayDeleted
    } else if code == "invalid-credentials"@ {
        ApiFailure::InvalidCredentials
    } else if code == "resource-not-found"@ {
        match context {
            Some(c) => match resource_of_context(c) {
                Some(r) => ApiFailure::ResourceNotFound(r),
                None => ApiFailure::Other { code, message },
            },
            None => ApiFailure::Other { code, message },
        }
    } else {
        ApiFailure::Other { code, message }
    }
}

/// The error that the answer of the service describes: an object with the
/// strings `code` and `message` and, perhaps, a `context`.
pub open spec fn api_failure_of(value: JsonValue) -> Result<ApiFailure, DecodeFailure> {
    match value {
        JsonValue::Object(m) => {
            let code = required_text(m, "code"@);
            let message = required_text(m, "message"@);
            if code is Err {
                Err(code->Err_0)
            } else if message is Err {
                Err(message->Err_0)
            } else {
                Ok(api_failure(code->Ok_0, message->Ok_0, crate::json::present(m, "context"@)))
            }
        },
        _ => Err(DecodeFailure::Unexpected { expected: Expected::Object }),
    }
}

impl ApiError {
    /// The code under which the service reports this error.
    pub fn code(&self) -> (out: &str)
        ensures
            out@ == self@.code(),
    {
        match self {
            ApiError::GatewayDeleted => "gateway-deleted",
            ApiError::InvalidCredentials => "invalid-credentials",
            ApiError::ResourceNotFound(_) => "resource-not-found",
            ApiError::Other { code, message } => code.as_str(),
        }
    }

    /// The error with this code, message and context.
    pub fn new(code: String, message: String, context: Option<&Json>) -> (out: ApiError)
        ensures
            out@ == api_failure(code@, message@, option_view(context)),
    {
        if code.as_str().eq("gateway-deleted") {
            ApiError::GatewayDeleted
        } else if code.as_str().eq("invalid-credentials") {
            ApiError::InvalidCredentials
        } else if code.as_str().eq("resource-not-found") {
            match context {
                Some(c) => match ResourceNotFound::from_context(c) {
                    Some(r) => ApiError::ResourceNotFound(r),
                    None => ApiError::Other { code, message },
                },
                None => ApiError::Other { code, message },
            }
        } else {
            ApiError::Other { code, message }
        }
    }

    /// Decodes the error that the answer of the service describes.
    pub fn from_json(value: &Json) -> (out: Result<ApiError, DecodeError>)
        ensures
            outcome(out) == api_failure_of(value@),
    {
        match value {
            Json::Object(members) => {
                proof {
                    lemma_object_view(*members);
                }
                let code = match find_member(members, "code") {
                    Some(v) => read_text(v)?,
                    None => {
                        return Err(missing("code"));
                    },
                };
                let message = match find_member(members, "message") {
                    Some(v) => read_text(v)?,
                    None => {
                        return Err(missing("message"));
                    },
                };
                Ok(ApiError::new(code, message, crate::decode::find_present(members, "context")))
            },
            _ => Err(DecodeError::Unexpected { expected: Expected::Object }),
        }
    }

    /// The sentence that reports this error.
    pub fn message(&self) -> (out: String)
        ensures
            out@ == match self@ {
                ApiFailure::GatewayDeleted =>
                    "The gateway this access token belonged to has been deleted (`gateway-deleted`)"@,
                ApiFailure::InvalidCredentials =>
                    "User credentials are invalid (`invalid-credentials`)"@,
                ApiFailure::ResourceNotFound(MissingResource::DeploymentNotFound) =>
                    "Resource not found (`resource-not-found`), resource: Deployment"@,
                ApiFailure::ResourceNotFound(MissingResource::Other(name)) =>
                    "Resource not found (`resource-not-found`), resource: Other("@ + name + ")"@,
                ApiFailure::Other { code, message } => message + " (`"@ + code + "`)"@,
            },
    {
        match self {
            ApiError::GatewayDeleted =>
                "The gateway this access token belonged to has been deleted (`gateway-deleted`)".to_owned(),
            ApiError::InvalidCredentials =>
                "User credentials are invalid (`invalid-credentials`)".to_owned(),
            ApiError::ResourceNotFound(ResourceNotFound::DeploymentNotFound) =>
                "Resource not found (`resource-not-found`), resource: Deployment".to_owned(),
            ApiError::ResourceNotFound(ResourceNotFound::Other(name)) => {
                let head = concat(
                    "Resource not found (`resource-not-found`), resource: Other(",
                    name.as_str(),
                );
                concat(head.as_str(), ")")
            },
            ApiError::Other { code, message } => {
                let head = concat(message.as_str(), " (`");
                let middle = concat(head.as_str(), code.as_str());
                concat(middle.as_str(), "`)")
            },
        }
    }
}

// ---------------------------------------------------------------------------
// Answers that are not a success

/// What an answer without success amounts to, by its body.
#[derive(Clone, Debug, PartialEq, Eq)]
pub enum ResponseFailure {
    /// The body is empty.
    Empty,
    /// The body describes an error of the service.
    Api(ApiError),
    /// The body describes no error of the service.
    Unreadable(DecodeError),
}

/// The mathematical value of a `ResponseFailure`.
pub enum ResponseFailureView {
    Empty,
    Api(ApiFailure),
    Unreadable(DecodeFailure),
}

impl View for ResponseFailure {
    type V = ResponseFailureView;

    open spec fn view(&self) -> ResponseFailureView {
        match self {
            ResponseFailure::Empty => ResponseFailureView::Empty,
            ResponseFailure::Api(e) => ResponseFailureView::Api(e@),
            ResponseFailure::Unreadable(e) => ResponseFailureView::Unreadable(e@),
        }
    }
}

/// What a body amounts to, given whether it is empty and what reading it as
/// JSON gave.
pub open spec fn failure_of_body(empty: bool, parsed: Option<JsonValue>) -> ResponseFailureView {
    if empty {
        ResponseFailureView::Empty
    } else {
        match parsed {
            None => ResponseFailureView::Unreadable(DecodeFailure::InvalidText),
            Some(value) => match api_failure_of(value) {
                Ok(e) => ResponseFailureView::Api(e),
                Err(e) => ResponseFailureView::Unreadable(e),
            },
        }
    }
}

/// Tells what the body of an answer without success amounts to, given
/// whether it is empty and what reading it as JSON gave.
pub fn classify_parsed(empty: bool, parsed: Option<Json>) -> (out: ResponseFailure)
    ensures
        out@ == failure_of_body(empty, option_view(parsed)),
{
    if empty {
        ResponseFailure::Empty
    } else {
        match parsed {
            None => ResponseFailure::Unreadable(DecodeError::InvalidText),
            Some(value) => match ApiError::from_json(&value) {
                Ok(e) => ResponseFailure::Api(e),
                Err(e) => ResponseFailure::Unreadable(e),
            },
        }
    }
}

/// Tells what the body of an answer without success amounts to.
pub fn classify_body(body: &str) -> (out: ResponseFailure)
    ensures
        out@ == failure_of_body(body@.len() == 0, crate::json::json_of_text(body@)),
{
    classify_parsed(body.is_empty(), Json::from_text(body))
}

/// What was asked of the service when something went wrong.
#[derive(Clone, Debug, PartialEq, Eq)]
pub struct ErrorDetails {
    /// The method of the request, such as `GET`.
    pub method: String,
    pub path: String,
    /// The status of the answer as it is shown, such as `404 Not Found`,
    /// where there was an answer.
    pub status: Option<String>,
}

impl ErrorDetails {
    /// The details of a request.
    pub fn new(method: &str, path: &str, status: Option<String>) -> (out: ErrorDetails)
        ensures
            out.method@ == method@,
            out.path@ == path@,
            out.status == status,
    {
        ErrorDetails { method: method.to_owned(), path: path.to_owned(), status }
    }

    /// The sentence that reports the failed request.
    pub fn message(&self) -> (out: String)
        ensures
            out@ == match self.status {
                Some(status) => self.method@ + " request to `"@ + self.path@
                    + "` failed with status code "@ + status@,
                None => self.method@ + " request to `"@ + self.path@ + "` failed"@,
            },
    {
        let head = concat(self.method.as_str(), " request to `");
        let middle = concat(head.as_str(), self.path.as_str());
        match &self.status {
            Some(status) => {
                let tail = concat(middle.as_str(), "` failed with status code ");
                concat(tail.as_str(), status.as_str())
            },
            None => concat(middle.as_str(), "` failed"),
        }
    }
}

} // verus!
