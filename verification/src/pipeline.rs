//! The pipeline entry: validation first, then candidate planning. A
//! target that fails validation never reaches process creation; a
//! target that passes yields the platform's ordered candidate list for
//! the caller to execute under the deadline, feeding each outcome back
//! through the coordinator and normalizing the final one.

use vstd::prelude::*;

use crate::outcome::invalid_target_msg;
use crate::platform::CandidateModel;
use crate::platform::CommandCandidate;
use crate::platform::OsId;
use crate::platform::candidates_for;
use crate::platform::candidates_spec;
use crate::platform::model_of;
use crate::validate::is_valid_target;
use crate::validate::target_ok;

verus! {

/// The hard wall-clock ceiling, in seconds, on a single candidate's
/// execution.
pub const DEADLINE_SECS: u64 = 30;

/// What planning owes: the platform's candidate list for a well-formed
/// target, the invalid-target message for any other input.
pub open spec fn planned(os: OsId, target: Seq<char>) -> Result<Seq<CandidateModel>, Seq<char>> {
    if target_ok(target) {
        Ok(candidates_spec(os, target))
    } else {
        Err(invalid_target_msg())
    }
}

/// Validates the target and, when it is well-formed, builds the ordered
/// candidate list for the given platform. No process is ever spawned
/// for a rejected target.
pub fn plan_invocation(os: OsId, target: &str) -> (r: Result<Vec<CommandCandidate>, String>)
    ensures
        r is Ok <==> target_ok(target@),
        r matches Ok(cs) ==> model_of(cs@) == candidates_spec(os, target@),
        r matches Err(m) ==> m@ == invalid_target_msg(),
{
    if is_valid_target(target) {
        Ok(candidates_for(os, target))
    } else {
        Err(
            String::from_str(
                "Invalid target: must contain only letters, digits, dots, dashes, colons, and underscores. Max 255 characters.",
            ),
        )
    }
}

} // verus!
