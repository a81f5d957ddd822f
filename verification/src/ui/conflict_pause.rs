use vstd::prelude::*;
use crate::app::{AppState, ExecutionOutcome, Flow, PauseReason, Screen, Step};
use crate::git::{GitOp, GitReply};
use crate::keys::KeyCode;
use crate::ui::execution::{at_valid_entry, conflict_reason, conflict_reason_of, current_commit, set_outcome, with_outcome};

verus! {

/// `n` is `o` after giving up on the paused commit: the commits already
/// applied (queue entries before the execution index) are unselected so a
/// retry does not queue them again, the queue ends at the index, and the
/// commit list is back.
pub open spec fn aborted(o: AppState, n: AppState) -> bool {
    &&& n == (AppState {
        selected: n.selected,
        conflict_message: None,
        pause_reason: None,
        execution_queue: n.execution_queue,
        screen: Screen::CommitList,
        ..o
    })
    &&& n.selected@ == o.selected@.difference(o.execution_queue@.take(o.execution_index as int).to_set())
    &&& n.execution_queue@ == o.execution_queue@.take(o.execution_index as int)
}

/// Undo already-applied commits' selection so a retry doesn't re-queue
/// them, then return to the commit list.
pub fn abort_and_return_to_commit_list(state: &mut AppState)
    requires
        old(state).execution_index <= old(state).execution_queue@.len(),
    ensures
        aborted(*old(state), *final(state)),
{
    let ghost o = *state;
    let k = state.execution_index;
    let mut i: usize = 0;
    while i < k
        invariant
            k == o.execution_index,
            k <= o.execution_queue@.len(),
            i <= k,
            *state == (AppState { selected: state.selected, ..o }),
            state.selected@ == o.selected@.difference(o.execution_queue@.take(i as int).to_set()),
        decreases k - i,
    {
        let idx = state.execution_queue[i];
        state.selected.remove(&idx);
        proof {
            assert(o.execution_queue@.take(i + 1) == o.execution_queue@.take(i as int).push(idx));
            o.execution_queue@.take(i as int).lemma_push_to_set_commute(idx);
            assert(state.selected@ =~= o.selected@.difference(o.execution_queue@.take(i + 1).to_set()));
        }
        i = i + 1;
    }
    state.conflict_message = None;
    state.pause_reason = None;
    state.execution_queue.truncate(k);
    state.screen = Screen::CommitList;
    assert(state.execution_queue@ =~= o.execution_queue@.take(k as int));
}

/// `n` is `o` with the paused commit done and execution resumed at the
/// next entry.
pub open spec fn advanced(o: AppState, n: AppState) -> bool {
    &&& n == (AppState {
        execution_results: n.execution_results,
        conflict_message: None,
        pause_reason: None,
        execution_index: (o.execution_index + 1) as usize,
        screen: Screen::Execution,
        ..o
    })
    &&& n.execution_results@ == with_outcome(
        o.execution_results@,
        o.execution_index as int,
        ExecutionOutcome::Done,
    )
}

/// Mark the currently-paused-on commit's result entry as Done and advance.
pub fn mark_current_done_and_advance(state: &mut AppState)
    requires
        old(state).execution_index < usize::MAX,
    ensures
        advanced(*old(state), *final(state)),
{
    let i = state.execution_index;
    set_outcome(&mut state.execution_results, i, ExecutionOutcome::Done);
    state.conflict_message = None;
    state.pause_reason = None;
    state.execution_index = i + 1;
    state.screen = Screen::Execution;
}

/// The reason execution is paused (a real conflict when none is recorded).
pub open spec fn reason_of(s: AppState) -> PauseReason {
    match s.pause_reason {
        Some(r) => r,
        None => PauseReason::CherryPickConflict,
    }
}

/// What `handle_key_conflict_pause` needs: an index to give up at, and,
/// to retry an amend, a queued commit there.
pub open spec fn conflict_key_ready(s: AppState, key: KeyCode) -> bool {
    &&& key == KeyCode::Char('a') ==> s.execution_index <= s.execution_queue@.len()
    &&& (key == KeyCode::Char('c') && reason_of(s) == PauseReason::AmendFailure) ==> at_valid_entry(s)
}

/// What a key does while execution is paused.
pub open spec fn conflict_key(o: AppState, key: KeyCode, n: AppState, step: Step) -> bool {
    let reason = reason_of(o);
    match key {
        KeyCode::Char('q') | KeyCode::Esc => n == (AppState { screen: Screen::Quit, ..o }) && step is Done,
        KeyCode::Char('a') => match reason {
            PauseReason::CherryPickConflict | PauseReason::EmptyAfterResolve => n == o && step matches Step::Run(
                GitOp::CherryPickAbort,
                Flow::AbortPick,
            ),
            PauseReason::AmendFailure => n == o && step matches Step::Run(
                GitOp::ResetHardHeadMinusOne,
                Flow::UndoCommit,
            ),
            PauseReason::StepError => aborted(o, n) && step is Done,
        },
        KeyCode::Char('c') => match reason {
            PauseReason::CherryPickConflict => n == o && step matches Step::Run(
                GitOp::CherryPickContinue,
                Flow::Continue,
            ),
            PauseReason::AmendFailure => {
                &&& n == o
                &&& step matches Step::Run(GitOp::AmendReauthor(d), Flow::ResumeAmend)
                &&& d@ == current_commit(o).date_rfc2822@
            },
            PauseReason::StepError => n == (AppState {
                conflict_message: None,
                pause_reason: None,
                screen: Screen::Execution,
                ..o
            }) && step is Done,
            PauseReason::EmptyAfterResolve => n == o && step matches Step::Run(
                GitOp::CommitAllowEmpty,
                Flow::CommitEmpty,
            ),
        },
        _ => n == o && step is Done,
    }
}

/// Handles a key while execution is paused: quit, give up on the commit
/// (`a`), or go on with it (`c`) in the way the pause reason calls for.
pub fn handle_key_conflict_pause(state: &mut AppState, key: KeyCode) -> (step: Step)
    requires
        conflict_key_ready(*old(state), key),
    ensures
        conflict_key(*old(state), key, *final(state), step),
{
    let reason = match state.pause_reason {
        Some(r) => r,
        None => PauseReason::CherryPickConflict,
    };
    match key {
        KeyCode::Char('q') | KeyCode::Esc => {
            state.screen = Screen::Quit;
            Step::Done
        },
        KeyCode::Char('a') => match reason {
            PauseReason::CherryPickConflict | PauseReason::EmptyAfterResolve => Step::Run(
                GitOp::CherryPickAbort,
                Flow::AbortPick,
            ),
            PauseReason::AmendFailure => Step::Run(GitOp::ResetHardHeadMinusOne, Flow::UndoCommit),
            PauseReason::StepError => {
                abort_and_return_to_commit_list(state);
                Step::Done
            },
        },
        KeyCode::Char('c') => match reason {
            PauseReason::CherryPickConflict => Step::Run(GitOp::CherryPickContinue, Flow::Continue),
            PauseReason::AmendFailure => {
                let idx = state.execution_queue[state.execution_index];
                Step::Run(
                    GitOp::AmendReauthor(state.commits[idx].date_rfc2822.clone()),
                    Flow::ResumeAmend,
                )
            },
            PauseReason::StepError => {
                state.conflict_message = None;
                state.pause_reason = None;
                state.screen = Screen::Execution;
                Step::Done
            },
            PauseReason::EmptyAfterResolve => Step::Run(GitOp::CommitAllowEmpty, Flow::CommitEmpty),
        },
        _ => Step::Done,
    }
}

/// After `cherry-pick --abort` (or the reset undoing a landed commit): back
/// to the commit list, or the error shown on the pause screen.
pub open spec fn after_abort_spec(o: AppState, reply: GitReply, n: AppState) -> bool {
    match crate::git::failure_text(reply) {
        None => aborted(o, n),
        Some(msg) => {
            &&& n == (AppState { conflict_message: n.conflict_message, ..o })
            &&& n.conflict_message matches Some(m) && m@ == msg
        },
    }
}

/// Ends the pause after giving up on the commit: `outcome` is what git
/// answered to the abort (or to the reset undoing a landed commit).
pub fn after_abort(state: &mut AppState, outcome: Result<(), crate::git::GitError>)
    requires
        old(state).execution_index <= old(state).execution_queue@.len(),
    ensures
        match outcome {
            Ok(_) => aborted(*old(state), *final(state)),
            Err(e) => {
                &&& *final(state) == (AppState { conflict_message: final(state).conflict_message, ..*old(state) })
                &&& final(state).conflict_message matches Some(m) && m@ == crate::git::error_text(e)
            },
        },
{
    match crate::git::outcome_text(outcome) {
        Ok(()) => abort_and_return_to_commit_list(state),
        Err(msg) => {
            state.conflict_message = Some(msg);
        },
    }
}

/// After `cherry-pick --continue`: the commit is re-authored next; another
/// conflict (or an empty result) keeps the pause with git's message; when
/// git could not run, the error is shown.
pub open spec fn after_continue_spec(o: AppState, reply: GitReply, n: AppState, step: Step) -> bool {
    match reply {
        GitReply::SpawnFailed(e) => {
            &&& n == (AppState { conflict_message: n.conflict_message, ..o })
            &&& n.conflict_message matches Some(m) && m@ == "git command failed: "@ + e@
            &&& step is Done
        },
        GitReply::Exited { success, stdout, stderr } => if success {
            &&& n == o
            &&& step matches Step::Run(GitOp::AmendReauthor(d), Flow::ResumeAmend)
            &&& d@ == current_commit(o).date_rfc2822@
        } else {
            let msg = crate::text::trim(stderr@);
            &&& n == (AppState {
                conflict_message: n.conflict_message,
                pause_reason: Some(conflict_reason(msg)),
                ..o
            })
            &&& n.conflict_message matches Some(m) && m@ == msg
            &&& step is Done
        },
    }
}

pub fn after_continue(state: &mut AppState, reply: &GitReply) -> (step: Step)
    requires
        at_valid_entry(*old(state)),
    ensures
        after_continue_spec(*old(state), *reply, *final(state), step),
{
    match crate::git::cherry_pick_continue(reply) {
        Err(e) => {
            state.conflict_message = Some(e.message());
            Step::Done
        },
        Ok(crate::git::CherryPickOutcome::Success) => {
            let idx = state.execution_queue[state.execution_index];
            Step::Run(
                GitOp::AmendReauthor(state.commits[idx].date_rfc2822.clone()),
                Flow::ResumeAmend,
            )
        },
        Ok(crate::git::CherryPickOutcome::Conflict(msg)) => {
            let reason = conflict_reason_of(msg.as_str());
            state.conflict_message = Some(msg);
            state.pause_reason = Some(reason);
            Step::Done
        },
    }
}

/// After committing an empty cherry-pick: it is re-authored next, or the
/// error shown.
pub open spec fn after_commit_empty_spec(o: AppState, reply: GitReply, n: AppState, step: Step) -> bool {
    match crate::git::failure_text(reply) {
        None => {
            &&& n == o
            &&& step matches Step::Run(GitOp::AmendReauthor(d), Flow::ResumeAmend)
            &&& d@ == current_commit(o).date_rfc2822@
        },
        Some(msg) => {
            &&& n == (AppState { conflict_message: n.conflict_message, ..o })
            &&& n.conflict_message matches Some(m) && m@ == msg
            &&& step is Done
        },
    }
}

pub fn after_commit_empty(state: &mut AppState, reply: &GitReply) -> (step: Step)
    requires
        at_valid_entry(*old(state)),
    ensures
        after_commit_empty_spec(*old(state), *reply, *final(state), step),
{
    match crate::git::outcome_text(crate::git::commit_allow_empty(&crate::git::command_result(reply))) {
        Ok(()) => {
            let idx = state.execution_queue[state.execution_index];
            Step::Run(
                GitOp::AmendReauthor(state.commits[idx].date_rfc2822.clone()),
                Flow::ResumeAmend,
            )
        },
        Err(msg) => {
            state.conflict_message = Some(msg);
            Step::Done
        },
    }
}

/// After the amend of a resumed commit: done and execution resumes; a
/// failed amend pauses on the amend with its error.
pub open spec fn after_resume_amend_spec(o: AppState, reply: GitReply, n: AppState) -> bool {
    match crate::git::failure_text(reply) {
        None => advanced(o, n),
        Some(msg) => {
            &&& n == (AppState {
                conflict_message: n.conflict_message,
                pause_reason: Some(PauseReason::AmendFailure),
                ..o
            })
            &&& n.conflict_message matches Some(m) && m@ == msg
        },
    }
}

pub fn after_resume_amend(state: &mut AppState, reply: &GitReply)
    requires
        old(state).execution_index < usize::MAX,
    ensures
        after_resume_amend_spec(*old(state), *reply, *final(state)),
{
    match crate::git::outcome_text(crate::git::amend_reauthor(&crate::git::command_result(reply))) {
        Ok(()) => mark_current_done_and_advance(state),
        Err(msg) => {
            state.conflict_message = Some(msg);
            state.pause_reason = Some(PauseReason::AmendFailure);
        },
    }
}

} // verus!
