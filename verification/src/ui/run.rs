use vstd::prelude::*;
use crate::app::{AppState, Flow, KeyOutcome, Screen, Step};
use crate::git::GitReply;
use crate::keys::{is_ctrl_c, KeyCode, KeyEvent};
use crate::ui::branch_list::{
    after_bulk_local, after_bulk_prune, after_bulk_remote, after_bulk_remote_spec, after_delete_after_worktree,
    after_delete_after_worktree_spec, after_delete_local, after_delete_local_spec, after_delete_remote,
    after_delete_remote_spec, after_drop_empty_picks, after_drop_empty_picks_spec, after_load_commits, after_load_commits_spec, after_prune_stale, after_push,
    after_push_count, after_push_refresh, after_push_spec, after_remove_worktree,
    after_remove_worktree_spec, ahead_count, bulk_advanced, bulk_step_spec, delete_confirm_key,
    handle_key_branch_list, handle_key_delete_confirm, handle_key_push_confirm, list_key,
    push_confirm_key, removed_branch, search_key, step_bulk_delete,
};
use crate::ui::commit_list::{commit_key, handle_key_commit_list};
use crate::ui::conflict_pause::{
    after_abort, after_abort_spec, after_commit_empty, after_commit_empty_spec, after_continue,
    after_continue_spec, after_resume_amend, after_resume_amend_spec, conflict_key,
    conflict_key_ready, handle_key_conflict_pause,
};
use crate::ui::execution::{
    after_amend, after_amend_spec, after_pick, after_pick_spec, at_valid_entry, step_execution,
    step_execution_spec,
};

verus! {

// ---------------------------------------------------------------------
// Handing git's replies back
// ---------------------------------------------------------------------

/// What resuming `flow` needs of the state.
pub open spec fn resume_pre(s: AppState, flow: Flow) -> bool {
    match flow {
        Flow::BulkLocal(_) | Flow::BulkRemote(_) | Flow::BulkPrune(_) => s.bulk_delete matches Some(b)
            && b.index < usize::MAX,
        Flow::Pick | Flow::Continue | Flow::CommitEmpty => at_valid_entry(s),
        Flow::Amend => s.execution_index < s.execution_queue@.len(),
        Flow::AbortPick | Flow::UndoCommit => s.execution_index <= s.execution_queue@.len(),
        Flow::ResumeAmend => s.execution_index < usize::MAX,
        _ => true,
    }
}

/// Whether `flow` can be resumed on `state`.
pub fn resume_ready(state: &AppState, flow: &Flow) -> (r: bool)
    ensures
        r == resume_pre(*state, *flow),
{
    match flow {
        Flow::BulkLocal(_) | Flow::BulkRemote(_) | Flow::BulkPrune(_) => match &state.bulk_delete {
            Some(b) => b.index < usize::MAX,
            None => false,
        },
        Flow::Pick | Flow::Continue | Flow::CommitEmpty => state.execution_index
            < state.execution_queue.len() && state.execution_queue[state.execution_index]
            < state.commits.len(),
        Flow::Amend => state.execution_index < state.execution_queue.len(),
        Flow::AbortPick | Flow::UndoCommit => state.execution_index <= state.execution_queue.len(),
        Flow::ResumeAmend => state.execution_index < usize::MAX,
        _ => true,
    }
}

/// What resuming `flow` with git's `reply` does.
pub open spec fn resume_spec(o: AppState, flow: Flow, reply: GitReply, n: AppState, step: Step) -> bool {
    match flow {
        Flow::PushCount => n == (AppState { pending_push_count: ahead_count(reply), ..o }) && step is Done,
        Flow::Push => after_push_spec(o, reply, n, step),
        Flow::PushRefresh => n == (AppState { push_ahead_count: ahead_count(reply), ..o }) && step is Done,
        Flow::LoadCommits(branch) => after_load_commits_spec(o, branch@, reply, n, step),
        Flow::DropEmptyPicks => after_drop_empty_picks_spec(o, reply, n) && step is Done,
        Flow::DeleteLocal(name) => after_delete_local_spec(o, name@, reply, n) && step is Done,
        Flow::DeleteRemote(name) => after_delete_remote_spec(o, name@, reply, n, step),
        Flow::PruneStale(name) => removed_branch(
            AppState { pending_delete: None, ..o },
            name@,
            n,
        ) && step is Done,
        Flow::RemoveWorktree(branch) => after_remove_worktree_spec(o, branch@, reply, n, step),
        Flow::DeleteAfterWorktree(branch) => after_delete_after_worktree_spec(o, branch@, reply, n)
            && step is Done,
        Flow::BulkLocal(name) => bulk_advanced(o, name@, crate::git::failure_text(reply), n)
            && step is Done,
        Flow::BulkRemote(name) => after_bulk_remote_spec(o, name@, reply, n, step),
        Flow::BulkPrune(name) => bulk_advanced(o, name@, None, n) && step is Done,
        Flow::Pick => after_pick_spec(o, reply, n, step),
        Flow::Amend => after_amend_spec(o, reply, n) && step is Done,
        Flow::AbortPick | Flow::UndoCommit => after_abort_spec(o, reply, n) && step is Done,
        Flow::Continue => after_continue_spec(o, reply, n, step),
        Flow::CommitEmpty => after_commit_empty_spec(o, reply, n, step),
        Flow::ResumeAmend => after_resume_amend_spec(o, reply, n) && step is Done,
    }
}

/// Hands git's reply to the flow that asked for it; the result is the next
/// step.
pub fn resume(state: &mut AppState, flow: Flow, reply: &GitReply) -> (step: Step)
    requires
        resume_pre(*old(state), flow),
    ensures
        resume_spec(*old(state), flow, *reply, *final(state), step),
{
    match flow {
        Flow::PushCount => {
            after_push_count(state, reply);
            Step::Done
        },
        Flow::Push => after_push(state, reply),
        Flow::PushRefresh => {
            after_push_refresh(state, reply);
            Step::Done
        },
        Flow::LoadCommits(branch) => after_load_commits(state, &branch, reply),
        Flow::DropEmptyPicks => {
            after_drop_empty_picks(state, reply);
            Step::Done
        },
        Flow::DeleteLocal(name) => {
            after_delete_local(state, &name, reply);
            Step::Done
        },
        Flow::DeleteRemote(name) => after_delete_remote(state, &name, reply),
        Flow::PruneStale(name) => {
            after_prune_stale(state, &name);
            Step::Done
        },
        Flow::RemoveWorktree(branch) => after_remove_worktree(state, &branch, reply),
        Flow::DeleteAfterWorktree(branch) => {
            after_delete_after_worktree(state, &branch, reply);
            Step::Done
        },
        Flow::BulkLocal(name) => {
            after_bulk_local(state, &name, reply);
            Step::Done
        },
        Flow::BulkRemote(name) => after_bulk_remote(state, &name, reply),
        Flow::BulkPrune(name) => {
            after_bulk_prune(state, &name);
            Step::Done
        },
        Flow::Pick => after_pick(state, reply),
        Flow::Amend => {
            after_amend(state, reply);
            Step::Done
        },
        Flow::AbortPick => {
            after_abort(state, crate::git::cherry_pick_abort(&crate::git::command_result(reply)));
            Step::Done
        },
        Flow::UndoCommit => {
            after_abort(state, crate::git::reset_hard_head_minus_one(&crate::git::command_result(reply)));
            Step::Done
        },
        Flow::Continue => after_continue(state, reply),
        Flow::CommitEmpty => after_commit_empty(state, reply),
        Flow::ResumeAmend => {
            after_resume_amend(state, reply);
            Step::Done
        },
    }
}

// ---------------------------------------------------------------------
// Keys
// ---------------------------------------------------------------------

/// What a key needs of the state: on the pause screen, what
/// `handle_key_conflict_pause` needs.
pub open spec fn key_pre(s: AppState, key: KeyEvent) -> bool {
    (s.screen == Screen::ConflictPause && !(key.code == KeyCode::Char('c') && key.modifiers.control)
        && s.pending_delete is None && !s.pending_push) ==> conflict_key_ready(s, key.code)
}

/// Whether `key` can be handled on `state`.
pub fn key_ready(state: &AppState, key: &KeyEvent) -> (r: bool)
    ensures
        r == key_pre(*state, *key),
{
    if state.screen == Screen::ConflictPause && !is_ctrl_c(key) && state.pending_delete.is_none()
        && !state.pending_push {
        let reason = match state.pause_reason {
            Some(r) => r,
            None => crate::app::PauseReason::CherryPickConflict,
        };
        let a_ok = key.code != KeyCode::Char('a') || state.execution_index
            <= state.execution_queue.len();
        let c_ok = !(key.code == KeyCode::Char('c') && reason
            == crate::app::PauseReason::AmendFailure) || (state.execution_index
            < state.execution_queue.len() && state.execution_queue[state.execution_index]
            < state.commits.len());
        a_ok && c_ok
    } else {
        true
    }
}

/// What a key press does: Ctrl+C quits anywhere; a pending delete or push
/// confirmation takes the key; otherwise the current screen handles it.
pub open spec fn key_spec(o: AppState, key: KeyEvent, n: AppState, step: Step) -> bool {
    if key.code == KeyCode::Char('c') && key.modifiers.control {
        n == (AppState { screen: Screen::Quit, ..o }) && step is Done
    } else if o.pending_delete is Some {
        exists|r: KeyOutcome| delete_confirm_key(o, key.code, n, r) && r == KeyOutcome::Consumed(step)
    } else if o.pending_push {
        exists|r: KeyOutcome| push_confirm_key(o, key.code, n, r) && r == KeyOutcome::Consumed(step)
    } else {
        match o.screen {
            Screen::BranchList => if o.search_active {
                search_key(o, key.code, n) && step is Done
            } else {
                list_key(o, key.code, key.modifiers, n, step)
            },
            Screen::CommitList => commit_key(o, key.code, n) && step is Done,
            Screen::Execution => if key.code == KeyCode::Char('q') {
                n == (AppState { screen: Screen::Quit, ..o }) && step is Done
            } else {
                n == o && step is Done
            },
            Screen::ConflictPause => conflict_key(o, key.code, n, step),
            Screen::Quit => n == o && step is Done,
        }
    }
}

/// Handles one key press; the step says which git command, if any, runs
/// next.
pub fn handle_key(state: &mut AppState, key: &KeyEvent) -> (step: Step)
    requires
        key_pre(*old(state), *key),
    ensures
        key_spec(*old(state), *key, *final(state), step),
{
    if is_ctrl_c(key) {
        state.screen = Screen::Quit;
        return Step::Done;
    }
    if state.pending_delete.is_some() {
        let r = handle_key_delete_confirm(state, key.code);
        return match r {
            KeyOutcome::Consumed(step) => step,
            KeyOutcome::Ignored => Step::Done,
        };
    }
    if state.pending_push {
        let r = handle_key_push_confirm(state, key.code);
        return match r {
            KeyOutcome::Consumed(step) => step,
            KeyOutcome::Ignored => Step::Done,
        };
    }
    match state.screen {
        Screen::BranchList => handle_key_branch_list(state, key.code, key.modifiers),
        Screen::CommitList => {
            handle_key_commit_list(state, key.code);
            Step::Done
        },
        Screen::Execution => {
            if key.code == KeyCode::Char('q') {
                state.screen = Screen::Quit;
            }
            Step::Done
        },
        Screen::ConflictPause => handle_key_conflict_pause(state, key.code),
        Screen::Quit => Step::Done,
    }
}

// ---------------------------------------------------------------------
// Work between keys
// ---------------------------------------------------------------------

/// What `tick` needs: a queued commit at the execution index while
/// executing.
pub open spec fn tick_pre(s: AppState) -> bool {
    (s.screen == Screen::Execution && s.execution_index < s.execution_queue@.len()) ==> at_valid_entry(s)
}

/// Whether `tick` can run on `state`.
pub fn tick_ready(state: &AppState) -> (r: bool)
    ensures
        r == tick_pre(*state),
{
    if state.screen == Screen::Execution && state.execution_index < state.execution_queue.len() {
        state.execution_queue[state.execution_index] < state.commits.len()
    } else {
        true
    }
}

/// The work the run loop does between keys: the next cherry-pick while
/// executing; once every queued commit is picked, straight back to the
/// branch list; the next branch of a bulk delete, or the end of a finished
/// bulk delete. `None` when there is nothing to do and keys are read.
pub open spec fn tick_spec(o: AppState, n: AppState, r: Option<Step>) -> bool {
    if o.screen == Screen::Execution && o.execution_index < o.execution_queue@.len() {
        &&& n == o
        &&& r matches Some(step) && step_execution_spec(o, step)
    } else if o.screen == Screen::Execution && o.execution_queue@.len() > 0 {
        &&& n == (AppState { screen: Screen::BranchList, ..o })
        &&& r matches Some(Step::Done)
    } else {
        match o.bulk_delete {
            Some(b) => if b.index < b.names@.len() {
                &&& n == o
                &&& r matches Some(step) && bulk_step_spec(o, step)
            } else {
                &&& r matches Some(Step::Done)
                &&& if b.errors@.len() > 0 {
                    &&& n == (AppState { bulk_delete: None, last_error: n.last_error, ..o })
                    &&& n.last_error matches Some(e) && e@ == crate::text::join(
                        crate::text::views(b.errors@),
                        "; "@,
                    )
                } else {
                    n == (AppState { bulk_delete: None, ..o })
                }
            },
            None => n == o && r is None,
        }
    }
}

pub fn tick(state: &mut AppState) -> (r: Option<Step>)
    requires
        tick_pre(*old(state)),
    ensures
        tick_spec(*old(state), *final(state), r),
{
    if state.screen == Screen::Execution && state.execution_index < state.execution_queue.len() {
        return Some(step_execution(state));
    }
    if state.screen == Screen::Execution && state.execution_queue.len() > 0 {
        state.screen = Screen::BranchList;
        return Some(Step::Done);
    }
    let busy = match &state.bulk_delete {
        Some(b) => Some(b.index < b.names.len()),
        None => None,
    };
    match busy {
        Some(true) => Some(step_bulk_delete(state)),
        Some(false) => {
            crate::ui::branch_list::finish_bulk_delete(state);
            Some(Step::Done)
        },
        None => None,
    }
}

} // verus!
