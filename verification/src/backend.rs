//! The backend service as the shell sees it: two fixed local addresses, and
//! the answer to the question whether the backend is running.

use vstd::prelude::*;

verus! {

/// The address that is fetched to see whether the backend is running.
pub const STATUS_URL: &'static str = "http://localhost:8000/status";

/// The address of the backend's documentation, opened in the browser.
pub const DOCS_URL: &'static str = "http://localhost:8000/docs";

/// The message for a backend that answered.
pub const RUNNING_MESSAGE: &'static str = "Backend is running";

/// The message for a backend that did not answer.
pub const NOT_RUNNING_MESSAGE: &'static str = "Backend is not running";

/// Why a request got no response.
#[derive(Clone, Copy, Debug, PartialEq, Eq, Structural)]
pub enum FetchFailure {
    ConnectionRefused,
    Timeout,
    DnsFailure,
    /// Anything else that kept the request from being made or answered.
    Other,
}

/// How the request to the status address ended.
#[derive(Clone, Copy, Debug, PartialEq, Eq, Structural)]
pub enum FetchOutcome {
    /// A response arrived; `status` is its HTTP status code.
    Response { status: u16 },
    /// No response arrived.
    Failed { cause: FetchFailure },
}

/// The characters of a reply, on either side.
pub open spec fn reply_text(reply: Result<String, String>) -> Result<Seq<char>, Seq<char>> {
    match reply {
        Ok(message) => Ok(message@),
        Err(message) => Err(message@),
    }
}

/// Any response at all means that the backend is running; no response means
/// that it is not.
pub open spec fn status_text(outcome: FetchOutcome) -> Result<Seq<char>, Seq<char>> {
    match outcome {
        FetchOutcome::Response { .. } => Ok(RUNNING_MESSAGE@),
        FetchOutcome::Failed { .. } => Err(NOT_RUNNING_MESSAGE@),
    }
}

/// Turns the outcome of the status request into the reply that the user
/// interface receives.
pub fn status_reply(outcome: FetchOutcome) -> (reply: Result<String, String>)
    ensures
        reply_text(reply) == status_text(outcome),
        reply is Ok <==> outcome is Response,
{
    match outcome {
        FetchOutcome::Response { .. } => Ok(RUNNING_MESSAGE.to_owned()),
        FetchOutcome::Failed { .. } => Err(NOT_RUNNING_MESSAGE.to_owned()),
    }
}

/// The reply depends on nothing but whether a response arrived: not on its
/// status code, and not on why none arrived.
pub proof fn lemma_reply_ignores_detail(a: FetchOutcome, b: FetchOutcome)
    requires
        a is Response <==> b is Response,
    ensures
        status_text(a) == status_text(b),
{
}

} // verus!
