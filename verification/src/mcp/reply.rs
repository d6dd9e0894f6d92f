//! What a tool answers, before it is written out.

use vstd::prelude::*;

use crate::failure::Failure;
use crate::json::{Json, JsonView};
use crate::mcp::content::{err, ok, CallToolResult};

verus! {

/// The answer of a tool that ran.
#[derive(Debug, PartialEq, Eq)]
pub enum ToolReply<S = String, J = Json> {
    /// The operation succeeded with this value.
    Success(J),
    /// The operation failed.
    Failed(Failure<S>),
    /// The operation failed, and its error envelope was made elsewhere.
    Envelope(J),
}

impl View for ToolReply<String, Json> {
    type V = ToolReply<Seq<char>, JsonView>;

    open spec fn view(&self) -> ToolReply<Seq<char>, JsonView> {
        match *self {
            ToolReply::Success(value) => ToolReply::Success(value@),
            ToolReply::Failed(failure) => ToolReply::Failed(failure@),
            ToolReply::Envelope(envelope) => ToolReply::Envelope(envelope@),
        }
    }
}

/// The store could not be read: a failure of the operation, under the name of an index
/// that cannot serve the request.
pub open spec fn unreadable(message: Seq<char>) -> ToolReply<Seq<char>, JsonView> {
    ToolReply::Failed(Failure::IndexUnavailable { details: message })
}

/// The answer to a request that the store could not serve.
pub fn infra_err(message: &str) -> (r: ToolReply)
    ensures
        r@ == unreadable(message@),
{
    ToolReply::Failed(Failure::IndexUnavailable { details: message.to_owned() })
}

/// The answer of a query: its value, the envelope of its failure, or a store that could
/// not serve it.
pub open spec fn folded(outcome: Result<Result<Json, Json>, String>) -> ToolReply<
    Seq<char>,
    JsonView,
> {
    match outcome {
        Ok(Ok(value)) => ToolReply::Success(value@),
        Ok(Err(envelope)) => ToolReply::Envelope(envelope@),
        Err(message) => unreadable(message@),
    }
}

/// The answer of a query.
pub fn fold(outcome: Result<Result<Json, Json>, String>) -> (r: ToolReply)
    ensures
        r@ == folded(outcome),
{
    match outcome {
        Ok(Ok(value)) => ToolReply::Success(value),
        Ok(Err(envelope)) => ToolReply::Envelope(envelope),
        Err(message) => infra_err(message.as_str()),
    }
}

impl ToolReply<String, Json> {
    /// The result of the call. `envelope` is the error envelope of the reply's failure,
    /// where it is one.
    pub fn into_result(self, envelope: Json) -> (r: CallToolResult)
        ensures
            match self@ {
                ToolReply::Success(value) => r.holds(crate::json::json_text(value)) && !r.is_error,
                ToolReply::Failed(_) => r.holds(crate::json::json_text(envelope@)) && r.is_error,
                ToolReply::Envelope(made) => r.holds(crate::json::json_text(made)) && r.is_error,
            },
    {
        match self {
            ToolReply::Success(value) => ok(&value),
            ToolReply::Failed(_) => err(&envelope),
            ToolReply::Envelope(made) => err(&made),
        }
    }
}

/// A query that succeeded is answered with its value, one that failed with the envelope of its
/// failure, and one that the store could not serve with an index that is not available, and why.
pub proof fn law_a_query_is_answered_by_its_outcome(value: Json, message: String)
    ensures
        folded(Ok(Ok(value))) == (ToolReply::<Seq<char>, JsonView>::Success(value@)),
        folded(Ok(Err(value))) == (ToolReply::<Seq<char>, JsonView>::Envelope(value@)),
        folded(Err(message)) matches ToolReply::Failed(failure) && (
        failure matches Failure::IndexUnavailable { details } && details == message@),
{
}

} // verus!
