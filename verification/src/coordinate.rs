//! Fallback coordination: a state machine over the ordered candidate
//! list. A candidate that the operating system could reach and run —
//! whether it succeeded, exited non-zero, or hung past the deadline —
//! ends the run; only a spawn failure advances to the next candidate,
//! and a spawn failure of the last candidate is itself final.

use vstd::prelude::*;

use crate::outcome::ExecutionOutcome;

verus! {

/// Whether the coordinator, having run candidate `idx` of `n` with this
/// outcome, advances to the next candidate rather than stopping.
pub open spec fn advances(idx: nat, n: nat, outcome: ExecutionOutcome) -> bool {
    outcome is SpawnFailed && idx + 1 < n
}

/// One transition of the coordinator: candidate `idx` of `n` has just
/// produced `outcome`. Returns the index of the candidate to run next,
/// or `None` when `outcome` is final for the whole run.
pub fn coordinator_step(idx: usize, n: usize, outcome: &ExecutionOutcome) -> (r: Option<usize>)
    requires
        idx < n,
    ensures
        r is Some <==> advances(idx as nat, n as nat, *outcome),
        r is Some ==> r->0 == idx + 1,
{
    if matches!(outcome, ExecutionOutcome::SpawnFailed(_)) && idx + 1 < n {
        Some(idx + 1)
    } else {
        None
    }
}

/// The final outcome of a run in which candidate `i` would produce
/// `outcomes[i]`: the first outcome that is not a spawn failure, or the
/// last outcome when every candidate fails to spawn.
pub open spec fn final_outcome(outcomes: Seq<ExecutionOutcome>) -> ExecutionOutcome
    recommends
        outcomes.len() >= 1,
    decreases outcomes.len(),
{
    if outcomes.len() <= 1 {
        outcomes[0]
    } else if outcomes[0] is SpawnFailed {
        final_outcome(outcomes.drop_first())
    } else {
        outcomes[0]
    }
}

/// How many candidates such a run executes: the leading spawn failures
/// and the candidate that ends the run.
pub open spec fn attempts_made(outcomes: Seq<ExecutionOutcome>) -> nat
    recommends
        outcomes.len() >= 1,
    decreases outcomes.len(),
{
    if outcomes.len() <= 1 {
        1
    } else if outcomes[0] is SpawnFailed {
        1 + attempts_made(outcomes.drop_first())
    } else {
        1
    }
}

/// Runs the coordination over the outcome each candidate would
/// produce, strictly in order, and returns the position of the
/// candidate whose outcome ends the run: every earlier candidate
/// failed to spawn, and `outcomes[r]` is the final outcome.
pub fn coordinate(outcomes: &Vec<ExecutionOutcome>) -> (r: usize)
    requires
        outcomes@.len() >= 1,
    ensures
        r < outcomes@.len(),
        r + 1 == attempts_made(outcomes@),
        outcomes@[r as int] == final_outcome(outcomes@),
        forall|j: int| 0 <= j < r ==> outcomes@[j] is SpawnFailed,
{
    let n = outcomes.len();
    let mut idx: usize = 0;
    proof {
        assert(outcomes@.skip(0) =~= outcomes@);
    }
    loop
        invariant
            idx < n,
            n == outcomes@.len(),
            final_outcome(outcomes@.skip(idx as int)) == final_outcome(outcomes@),
            idx + attempts_made(outcomes@.skip(idx as int)) == attempts_made(outcomes@),
            forall|j: int| 0 <= j < idx ==> outcomes@[j] is SpawnFailed,
        decreases n - idx,
    {
        let ghost rest = outcomes@.skip(idx as int);
        let step = coordinator_step(idx, n, &outcomes[idx]);
        match step {
            Some(next) => {
                proof {
                    assert(rest[0] == outcomes@[idx as int]);
                    assert(rest.drop_first() =~= outcomes@.skip(idx as int + 1));
                    assert(final_outcome(rest) == final_outcome(rest.drop_first()));
                    assert(attempts_made(rest) == 1 + attempts_made(rest.drop_first()));
                }
                idx = next;
            },
            None => {
                proof {
                    assert(rest[0] == outcomes@[idx as int]);
                    assert(final_outcome(rest) == rest[0]);
                    assert(attempts_made(rest) == 1);
                }
                return idx;
            },
        }
    }
}

/// The fallback policy over a two-candidate list, as on a Unix-like
/// platform: a spawn failure of the first candidate makes the
/// coordinator execute the second candidate, whose outcome is final;
/// any other first outcome is final immediately, and the second
/// candidate is never executed.
pub proof fn lemma_fallback_policy(first: ExecutionOutcome, second: ExecutionOutcome)
    ensures
        first is SpawnFailed ==> advances(0, 2, first),
        first is SpawnFailed ==> final_outcome(seq![first, second]) == second,
        first is SpawnFailed ==> attempts_made(seq![first, second]) == 2,
        !(first is SpawnFailed) ==> !advances(0, 2, first),
        !(first is SpawnFailed) ==> final_outcome(seq![first, second]) == first,
        !(first is SpawnFailed) ==> attempts_made(seq![first, second]) == 1,
{
    let s = seq![first, second];
    let t = s.drop_first();
    assert(t =~= seq![second]);
    if first is SpawnFailed {
        assert(final_outcome(s) == final_outcome(t));
        assert(final_outcome(t) == second);
        assert(attempts_made(s) == 1 + attempts_made(t));
        assert(attempts_made(t) == 1);
    }
}

/// On a single-candidate list, as on Windows, every outcome is final:
/// a spawn failure there is terminal, with no fallback attempted.
pub proof fn lemma_single_candidate_terminal(only: ExecutionOutcome)
    ensures
        !advances(0, 1, only),
        final_outcome(seq![only]) == only,
        attempts_made(seq![only]) == 1,
{
}

} // verus!
