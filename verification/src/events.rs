use vstd::prelude::*;

verus! {

/// One event produced by the process runner's drain tasks and consumed
/// exactly once by the orchestrator: either one decoded line of subprocess
/// output, or a detected error condition.
#[derive(Debug, PartialEq)]
pub enum RunnerEvent {
    Line(String),
    Failure(String),
}

/// One event of the outward protocol, pushed to the caller in order:
/// `SessionCreated` at most once and always first, `Output` zero or more
/// times, `Error` at most once and terminating further output, and
/// `Completed` exactly once, always last.
#[derive(Debug, PartialEq)]
pub enum OutwardEvent {
    SessionCreated(String),
    Output(String),
    Error(String),
    Completed,
}

} // verus!
