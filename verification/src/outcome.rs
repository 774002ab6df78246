//! Execution outcomes and result normalization: the tagged result of
//! running one candidate, and the mapping from the final outcome to the
//! caller-facing success text or error message.

use vstd::prelude::*;

use crate::platform::OsId;

verus! {

/// The result of running one candidate to completion of its bounded
/// execution: captured stdout on success, captured stderr on a non-zero
/// exit, the underlying cause when the executable could not be spawned
/// at all, or a timeout when the wall-clock deadline fired first.
pub enum ExecutionOutcome {
    Succeeded(String),
    FailedNonZero(String),
    SpawnFailed(String),
    TimedOut,
}

/// The error message for input that fails validation.
pub open spec fn invalid_target_msg() -> Seq<char> {
    "Invalid target: must contain only letters, digits, dots, dashes, colons, and underscores. Max 255 characters."@
}

/// The fixed error message when the deadline fires.
pub open spec fn timeout_msg() -> Seq<char> {
    "Traceroute command timed out after 30 seconds"@
}

/// The prefix of the error message for a tool that ran and exited
/// non-zero; the captured stderr follows it verbatim.
pub open spec fn failed_prefix() -> Seq<char> {
    "Traceroute failed: "@
}

/// The prefix of the error message when no candidate could be spawned.
/// It names the executables that were available to try on the given
/// platform; the underlying cause follows it verbatim.
pub open spec fn spawn_failed_prefix(os: OsId) -> Seq<char> {
    match os {
        OsId::Windows => "Failed to execute tracert: "@,
        OsId::UnixLike => "Failed to execute traceroute or tracepath: "@,
    }
}

/// The caller-facing value for a final outcome: the captured stdout
/// verbatim, or the error message each failure class owes.
pub open spec fn normalized(os: OsId, outcome: ExecutionOutcome) -> Result<Seq<char>, Seq<char>> {
    match outcome {
        ExecutionOutcome::Succeeded(t) => Ok(t@),
        ExecutionOutcome::FailedNonZero(e) => Err(failed_prefix() + e@),
        ExecutionOutcome::SpawnFailed(c) => Err(spawn_failed_prefix(os) + c@),
        ExecutionOutcome::TimedOut => Err(timeout_msg()),
    }
}

/// Mathematical image of a caller-facing result.
pub open spec fn result_model(r: Result<String, String>) -> Result<Seq<char>, Seq<char>> {
    match r {
        Ok(t) => Ok(t@),
        Err(e) => Err(e@),
    }
}

/// Maps the final outcome of the pipeline into the caller-facing
/// result, exactly as [`normalized`] states it.
pub fn normalize(os: OsId, outcome: ExecutionOutcome) -> (r: Result<String, String>)
    ensures
        result_model(r) == normalized(os, outcome),
{
    match outcome {
        ExecutionOutcome::Succeeded(t) => Ok(t),
        ExecutionOutcome::FailedNonZero(e) => Err(
            String::from_str("Traceroute failed: ").concat(e.as_str()),
        ),
        ExecutionOutcome::SpawnFailed(c) => {
            let prefix = match os {
                OsId::Windows => String::from_str("Failed to execute tracert: "),
                OsId::UnixLike => String::from_str("Failed to execute traceroute or tracepath: "),
            };
            Err(prefix.concat(c.as_str()))
        },
        ExecutionOutcome::TimedOut => Err(
            String::from_str("Traceroute command timed out after 30 seconds"),
        ),
    }
}

} // verus!
