//! The request and response records of an execution.

use vstd::prelude::*;

verus! {

/// One execution request: the files to materialise, as (relative name,
/// content) pairs with distinct names, the shell command, and the timeout in
/// seconds (0: none).
#[derive(Clone, Debug)]
pub struct RunRequest {
    pub files: Vec<(String, String)>,
    pub command: String,
    pub timeout_seconds: u64,
}

/// The uniform response: a non-empty `error` marks a failure, and then
/// `stdout` and `stderr` are empty.
#[derive(Clone, Debug)]
pub struct RunResponse {
    pub stdout: String,
    pub stderr: String,
    pub error: String,
}

/// The output of a command that ran to completion.
#[derive(Clone, Debug)]
pub struct OkRunResponse {
    pub stdout: String,
    pub stderr: String,
}

/// A request together with the response given to it.
#[derive(Clone, Debug)]
pub struct LogEntry {
    pub request: RunRequest,
    pub response: RunResponse,
}

/// The (stdout, stderr, error) fields of the response to an outcome.
pub open spec fn response_fields(o: Result<(Seq<char>, Seq<char>), Seq<char>>) -> (
    Seq<char>,
    Seq<char>,
    Seq<char>,
) {
    match o {
        Ok((out, err)) => (out, err, Seq::empty()),
        Err(m) => (Seq::empty(), Seq::empty(), m),
    }
}

/// The view of an outcome, field by field.
pub open spec fn outcome_view(o: Result<OkRunResponse, String>) -> Result<
    (Seq<char>, Seq<char>),
    Seq<char>,
> {
    match o {
        Ok(r) => Ok((r.stdout@, r.stderr@)),
        Err(m) => Err(m@),
    }
}

/// Turns the outcome of an execution into the uniform response shape.
pub fn response_of(result: Result<OkRunResponse, String>) -> (r: RunResponse)
    ensures
        (r.stdout@, r.stderr@, r.error@) == response_fields(outcome_view(result)),
{
    match result {
        Ok(ok) => RunResponse { stdout: ok.stdout, stderr: ok.stderr, error: String::new() },
        Err(error) => RunResponse { stdout: String::new(), stderr: String::new(), error },
    }
}

} // verus!
