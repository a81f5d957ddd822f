use vstd::prelude::*;
use crate::app::{AppState, ExecutionOutcome, ExecutionResult, Flow, PauseReason, Screen, Step};
use crate::git::{Commit, GitOp, GitReply};

verus! {

/// There is a queue entry at the execution index, and it names a listed
/// commit.
pub open spec fn at_valid_entry(s: AppState) -> bool {
    &&& s.execution_index < s.execution_queue@.len()
    &&& s.execution_queue@[s.execution_index as int] < s.commits@.len()
}

/// The commit at the execution index.
pub open spec fn current_commit(s: AppState) -> Commit {
    s.commits@[s.execution_queue@[s.execution_index as int] as int]
}

/// The results with the one at `i` (if any) given outcome `out`.
pub open spec fn with_outcome(rs: Seq<ExecutionResult>, i: int, out: ExecutionOutcome) -> Seq<
    ExecutionResult,
> {
    if 0 <= i < rs.len() {
        rs.update(i, ExecutionResult { commit: rs[i].commit, outcome: out })
    } else {
        rs
    }
}

/// Gives the result at `i`, if there is one, outcome `out`.
pub fn set_outcome(results: &mut Vec<ExecutionResult>, i: usize, out: ExecutionOutcome)
    ensures
        final(results)@ == with_outcome(old(results)@, i as int, out),
{
    if i < results.len() {
        let c = results[i].commit.clone();
        results.set(i, ExecutionResult { commit: c, outcome: out });
    }
}

/// The step that cherry-picks the next queued commit, if any is left.
pub open spec fn step_execution_spec(s: AppState, step: Step) -> bool {
    if s.execution_index < s.execution_queue@.len() {
        &&& step matches Step::Run(GitOp::CherryPick(sha), Flow::Pick)
        &&& sha@ == current_commit(s).sha@
    } else {
        step is Done
    }
}

/// Starts cherry-picking the commit at the execution index.
pub fn step_execution(state: &AppState) -> (step: Step)
    requires
        state.execution_index < state.execution_queue@.len() ==> at_valid_entry(*state),
    ensures
        step_execution_spec(*state, step),
{
    if state.execution_index >= state.execution_queue.len() {
        return Step::Done;
    }
    let idx = state.execution_queue[state.execution_index];
    Step::Run(GitOp::CherryPick(state.commits[idx].sha.clone()), Flow::Pick)
}

/// Why execution pauses on a failed pick with message `msg`: an empty
/// result is told apart from a real conflict.
pub open spec fn conflict_reason(msg: Seq<char>) -> PauseReason {
    if crate::text::contains_sub(msg, "previous cherry-pick is now empty"@) || crate::text::contains_sub(
        msg,
        "allow an empty commit"@,
    ) {
        PauseReason::EmptyAfterResolve
    } else {
        PauseReason::CherryPickConflict
    }
}

pub fn conflict_reason_of(msg: &str) -> (r: PauseReason)
    ensures
        r == conflict_reason(msg@),
{
    if crate::git::is_empty_cherry_pick_message(msg) {
        PauseReason::EmptyAfterResolve
    } else {
        PauseReason::CherryPickConflict
    }
}

/// After the cherry-pick of the current commit: on success the commit is
/// re-authored next; on a conflict (or an empty result) the result fails
/// and execution pauses; when git could not run, execution pauses on a
/// step error.
pub open spec fn after_pick_spec(o: AppState, reply: GitReply, n: AppState, step: Step) -> bool {
    match reply {
        GitReply::SpawnFailed(e) => {
            &&& n == (AppState {
                conflict_message: n.conflict_message,
                pause_reason: Some(PauseReason::StepError),
                screen: Screen::ConflictPause,
                ..o
            })
            &&& n.conflict_message matches Some(m) && m@ == "git command failed: "@ + e@
            &&& step is Done
        },
        GitReply::Exited { success, stdout, stderr } => if success {
            &&& n == o
            &&& step matches Step::Run(GitOp::AmendReauthor(d), Flow::Amend)
            &&& d@ == current_commit(o).date_rfc2822@
        } else {
            let msg = crate::text::trim(stderr@);
            &&& n == (AppState {
                execution_results: n.execution_results,
                conflict_message: n.conflict_message,
                pause_reason: Some(conflict_reason(msg)),
                screen: Screen::ConflictPause,
                ..o
            })
            &&& n.conflict_message matches Some(m) && m@ == msg
            &&& n.execution_results@.len() == o.execution_results@.len()
            &&& forall|k: int| 0 <= k < n.execution_results@.len() && k != o.execution_index
                ==> #[trigger] n.execution_results@[k] == o.execution_results@[k]
            &&& o.execution_index < o.execution_results@.len() ==> {
                &&& n.execution_results@[o.execution_index as int].commit == o.execution_results@[o.execution_index as int].commit
                &&& n.execution_results@[o.execution_index as int].outcome matches ExecutionOutcome::Failed(f) && f@ == msg
            }
            &&& step is Done
        },
    }
}

pub fn after_pick(state: &mut AppState, reply: &GitReply) -> (step: Step)
    requires
        at_valid_entry(*old(state)),
    ensures
        after_pick_spec(*old(state), *reply, *final(state), step),
{
    match crate::git::cherry_pick(reply) {
        Err(e) => {
            state.conflict_message = Some(e.message());
            state.pause_reason = Some(PauseReason::StepError);
            state.screen = Screen::ConflictPause;
            Step::Done
        },
        Ok(crate::git::CherryPickOutcome::Success) => {
            let idx = state.execution_queue[state.execution_index];
            Step::Run(
                GitOp::AmendReauthor(state.commits[idx].date_rfc2822.clone()),
                Flow::Amend,
            )
        },
        Ok(crate::git::CherryPickOutcome::Conflict(msg)) => {
            let i = state.execution_index;
            let reason = conflict_reason_of(msg.as_str());
            set_outcome(&mut state.execution_results, i, ExecutionOutcome::Failed(msg.clone()));
            state.conflict_message = Some(msg);
            state.pause_reason = Some(reason);
            state.screen = Screen::ConflictPause;
            Step::Done
        },
    }
}

/// After re-authoring the picked commit: its result is done and execution
/// moves to the next entry; if the amend failed, the result fails and
/// execution pauses on the amend.
pub open spec fn after_amend_spec(o: AppState, reply: GitReply, n: AppState) -> bool {
    match crate::git::failure_text(reply) {
        None => {
            &&& n == (AppState {
                execution_results: n.execution_results,
                execution_index: (o.execution_index + 1) as usize,
                ..o
            })
            &&& n.execution_results@ == with_outcome(
                o.execution_results@,
                o.execution_index as int,
                ExecutionOutcome::Done,
            )
        },
        Some(msg) => {
            &&& n == (AppState {
                execution_results: n.execution_results,
                conflict_message: n.conflict_message,
                pause_reason: Some(PauseReason::AmendFailure),
                screen: Screen::ConflictPause,
                ..o
            })
            &&& n.conflict_message matches Some(m) && m@ == msg
            &&& n.execution_results@.len() == o.execution_results@.len()
            &&& forall|k: int| 0 <= k < n.execution_results@.len() && k != o.execution_index
                ==> #[trigger] n.execution_results@[k] == o.execution_results@[k]
            &&& o.execution_index < o.execution_results@.len() ==> {
                &&& n.execution_results@[o.execution_index as int].commit == o.execution_results@[o.execution_index as int].commit
                &&& n.execution_results@[o.execution_index as int].outcome matches ExecutionOutcome::Failed(f) && f@ == msg
            }
        },
    }
}

pub fn after_amend(state: &mut AppState, reply: &GitReply)
    requires
        old(state).execution_index < old(state).execution_queue@.len(),
    ensures
        after_amend_spec(*old(state), *reply, *final(state)),
{
    let i = state.execution_index;
    let q = state.execution_queue.len();
    assert(i < q);
    match crate::git::outcome_text(crate::git::amend_reauthor(&crate::git::command_result(reply))) {
        Ok(()) => {
            set_outcome(&mut state.execution_results, i, ExecutionOutcome::Done);
            state.execution_index = i + 1;
        },
        Err(msg) => {
            set_outcome(&mut state.execution_results, i, ExecutionOutcome::Failed(msg.clone()));
            state.conflict_message = Some(msg);
            state.pause_reason = Some(PauseReason::AmendFailure);
            state.screen = Screen::ConflictPause;
        },
    }
}

} // verus!
