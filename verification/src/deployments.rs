//! Deployments: pipelines as they run on a gateway.
//!
//! The definition of a deployment is its pipeline. Producers of different
//! versions send it as an array of nodes or as a string that holds that
//! array as JSON text; both are read here, and nothing else is.

use vstd::prelude::*;

use crate::decode::{option_view, DecodeError, DecodeFailure, Expected, Family};
use crate::named::Named;
use crate::json::{json_of_text, Json, JsonValue};
use crate::pipeline::{
    overall, pipeline_of, pipeline_of_parsed, pipeline_outcome, Pipeline, PipelineError,
    PipelineFailure, PipelineView,
};

verus! {

/// The state of a deployment.
#[derive(Clone, Copy, Debug, PartialEq, Eq, Structural, Hash)]
pub enum State {
    Deploying,
    Running,
    Stopping,
    Stopped,
    Interrupted,
    Error,
    Unknown,
}

impl Named for State {
    open spec fn name(self) -> Seq<char> {
        match self {
            State::Deploying => "deploying"@,
            State::Running => "running"@,
            State::Stopping => "stopping"@,
            State::Stopped => "stopped"@,
            State::Interrupted => "interrupted"@,
            State::Error => "error"@,
            State::Unknown => "unknown"@,
        }
    }

    open spec fn named(name: Seq<char>) -> Option<State> {
        if name == "deploying"@ {
            Some(State::Deploying)
        } else if name == "running"@ {
            Some(State::Running)
        } else if name == "stopping"@ {
            Some(State::Stopping)
        } else if name == "stopped"@ {
            Some(State::Stopped)
        } else if name == "interrupted"@ {
            Some(State::Interrupted)
        } else if name == "error"@ {
            Some(State::Error)
        } else if name == "unknown"@ {
            Some(State::Unknown)
        } else {
            None
        }
    }

    open spec fn family() -> Family {
        Family::DeploymentState
    }

    proof fn lemma_name_reads_back(self) {
        reveal_strlit("deploying");
        reveal_strlit("running");
        reveal_strlit("stopping");
        reveal_strlit("stopped");
        reveal_strlit("interrupted");
        reveal_strlit("error");
        reveal_strlit("unknown");
        assert("deploying"@.len() == 9);
        assert("running"@.len() == 7);
        assert("stopping"@.len() == 8);
        assert("stopped"@.len() == 7);
        assert("interrupted"@.len() == 11);
        assert("error"@.len() == 5);
        assert("unknown"@.len() == 7);
        assert("running"@[0] == 'r');
        assert("stopped"@[0] == 's');
        assert("unknown"@[0] == 'u');
    }

    fn as_str(self) -> (out: &'static str) {
        match self {
            State::Deploying => "deploying",
            State::Running => "running",
            State::Stopping => "stopping",
            State::Stopped => "stopped",
            State::Interrupted => "interrupted",
            State::Error => "error",
            State::Unknown => "unknown",
        }
    }

    fn from_name(name: &str) -> (out: Option<State>) {
        if name.eq("deploying") {
            Some(State::Deploying)
        } else if name.eq("running") {
            Some(State::Running)
        } else if name.eq("stopping") {
            Some(State::Stopping)
        } else if name.eq("stopped") {
            Some(State::Stopped)
        } else if name.eq("interrupted") {
            Some(State::Interrupted)
        } else if name.eq("error") {
            Some(State::Error)
        } else if name.eq("unknown") {
            Some(State::Unknown)
        } else {
            None
        }
    }

    fn kind() -> (out: Family) {
        Family::DeploymentState
    }
}

/// The pipeline that a definition holds: that of the array where it is an
/// array of nodes, that of the text where it is a string. A definition that
/// is `null` is refused as such, and one of any other kind as not an array.
pub open spec fn definition_of(value: JsonValue) -> Result<PipelineView, PipelineFailure> {
    match value {
        JsonValue::Array(_) => pipeline_of(value),
        JsonValue::Text(text) => pipeline_of_parsed(json_of_text(text)),
        JsonValue::Null => Err(overall(DecodeFailure::NullDefinition)),
        _ => Err(overall(DecodeFailure::Unexpected { expected: Expected::Array })),
    }
}

/// The pipeline that a definition holds where there may be none: as
/// `definition_of`, but `null` stands for no pipeline.
pub open spec fn optional_definition_of(value: JsonValue) -> Result<
    Option<PipelineView>,
    PipelineFailure,
> {
    match value {
        JsonValue::Null => Ok(None),
        _ => match definition_of(value) {
            Ok(p) => Ok(Some(p)),
            Err(e) => Err(e),
        },
    }
}

/// Both shapes of a definition give the same outcome: an array of nodes,
/// and a string whose text reads as that array.
pub proof fn lemma_dual_shape(array: JsonValue, text: Seq<char>)
    requires
        array is Array,
        json_of_text(text) == Some(array),
    ensures
        definition_of(JsonValue::Text(text)) == definition_of(array),
        optional_definition_of(JsonValue::Text(text)) == optional_definition_of(array),
{
}

/// Decodes a definition that is a string, from what reading its text gave.
pub fn definition_from_parsed(parsed: Option<Json>) -> (out: Result<Pipeline, PipelineError>)
    ensures
        pipeline_outcome(out) == pipeline_of_parsed(option_view(parsed)),
        out is Ok ==> out->Ok_0@.wf() && out->Ok_0@.closed() && out->Ok_0@.sinks_valid(),
{
    Pipeline::from_parsed(parsed)
}

/// Decodes the definition of a deployment, which must be there.
pub fn deserialize_pipeline_def(value: &Json) -> (out: Result<Pipeline, PipelineError>)
    ensures
        pipeline_outcome(out) == definition_of(value@),
        out is Ok ==> out->Ok_0@.wf() && out->Ok_0@.closed() && out->Ok_0@.sinks_valid(),
{
    match value {
        Json::Array(_) => Pipeline::from_json(value),
        Json::Text(text) => definition_from_parsed(Json::from_text(text.as_str())),
        Json::Null => Err(PipelineError::overall(DecodeError::NullDefinition)),
        _ => Err(PipelineError::overall(DecodeError::Unexpected { expected: Expected::Array })),
    }
}

/// Decodes the definition of a deployment where there may be none yet.
pub fn deserialize_optional_pipeline_def(value: &Json) -> (out: Result<
    Option<Pipeline>,
    PipelineError,
>)
    ensures
        match out {
            Ok(p) => optional_definition_of(value@) == Ok::<Option<PipelineView>, PipelineFailure>(
                option_view(p),
            ),
            Err(e) => optional_definition_of(value@) == Err::<
                Option<PipelineView>,
                PipelineFailure,
            >(e@),
        },
        out matches Ok(Some(p)) ==> p@.wf() && p@.closed() && p@.sinks_valid(),
{
    match value {
        Json::Null => Ok(None),
        _ => match deserialize_pipeline_def(value) {
            Ok(p) => Ok(Some(p)),
            Err(e) => Err(e),
        },
    }
}

} // verus!
