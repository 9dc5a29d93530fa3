use vstd::prelude::*;

use crate::error::AppError;
use crate::events::RunnerEvent;
use crate::text::contains_seq;
use crate::text::contains_str;

verus! {

/// A diagnostic line looks like a fatal problem when it holds one of a small
/// case-sensitive keyword set associated with failure.
pub open spec fn is_failure_text(s: Seq<char>) -> bool {
    ||| contains_seq(s, "Error"@)
    ||| contains_seq(s, "error"@)
    ||| contains_seq(s, "failed"@)
    ||| contains_seq(s, "Failed"@)
    ||| contains_seq(s, "cannot"@)
    ||| contains_seq(s, "Cannot"@)
}

/// The keyword classifier over standard-error lines.
pub fn is_failure_line(line: &str) -> (r: bool)
    ensures
        r == is_failure_text(line@),
{
    contains_str(line, "Error") || contains_str(line, "error") || contains_str(line, "failed")
        || contains_str(line, "Failed") || contains_str(line, "cannot") || contains_str(
        line,
        "Cannot",
    )
}

/// What the standard-output drain task does with one decoded line: blank
/// lines are discarded, every other line is forwarded verbatim as a `Line`
/// event.
pub fn stdout_line_event(line: String) -> (r: Option<RunnerEvent>)
    ensures
        line@.len() == 0 ==> r is None,
        line@.len() > 0 ==> r == Some(RunnerEvent::Line(line)),
{
    if line.as_str().is_empty() {
        None
    } else {
        Some(RunnerEvent::Line(line))
    }
}

/// What the standard-error drain task forwards into the shared channel for
/// one decoded line: nothing for a blank line, nothing for an ordinary
/// diagnostic, and a `Failure` event wrapping the line when the keyword
/// classifier flags it. Every non-blank line is additionally logged by the
/// caller; logging is not decided here.
pub fn stderr_line_event(line: &String) -> (r: Option<RunnerEvent>)
    ensures
        line@.len() == 0 ==> r is None,
        line@.len() > 0 && !is_failure_text(line@) ==> r is None,
        line@.len() > 0 && is_failure_text(line@) ==> match r {
            Some(ev) => ev matches RunnerEvent::Failure(m) && m@ == "Agent CLI error: "@ + line@,
            None => false,
        },
{
    if line.as_str().is_empty() {
        None
    } else if is_failure_line(line.as_str()) {
        Some(
            RunnerEvent::Failure(String::from_str("Agent CLI error: ").concat(line.as_str())),
        )
    } else {
        None
    }
}

/// The message carried by a spawn failure, naming the attempted executable
/// and the underlying report for diagnostics.
pub fn spawn_failure(exe: &str, detail: &str) -> (r: AppError)
    ensures
        r matches AppError::ProcessSpawnFailed(m) && m@ == "Failed to spawn '"@ + exe@ + "': "@
            + detail@,
{
    AppError::ProcessSpawnFailed(
        String::from_str("Failed to spawn '").concat(exe).concat("': ").concat(detail),
    )
}

} // verus!
