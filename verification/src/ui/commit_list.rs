use vstd::prelude::*;
use crate::app::{AppState, ExecutionOutcome, ExecutionResult, Screen};
use crate::git::Commit;
use crate::keys::KeyCode;
use crate::sets::strictly_increasing;

verus! {

/// The commits of the queue entries that name a listed commit, in queue
/// order.
pub open spec fn queued_commits(queue: Seq<usize>, commits: Seq<Commit>) -> Seq<Commit>
    decreases queue.len(),
{
    if queue.len() == 0 {
        seq![]
    } else {
        let rest = queued_commits(queue.drop_last(), commits);
        if queue.last() < commits.len() {
            rest.push(commits[queue.last() as int])
        } else {
            rest
        }
    }
}

/// Every result is still pending, and they are for `cs`, in order.
pub open spec fn pending_results(rs: Seq<ExecutionResult>, cs: Seq<Commit>) -> bool {
    &&& rs.len() == cs.len()
    &&& forall|k: int| 0 <= k < rs.len() ==> (#[trigger] rs[k]).commit == cs[k] && rs[k].outcome is Pending
}

/// The commit cursor is on a listed commit, or at 0 when there is none.
pub open spec fn commit_cursor_ok(s: AppState) -> bool {
    s.commit_cursor == 0 || s.commit_cursor < s.commits@.len()
}

/// What a key does on the commit list.
pub open spec fn commit_key(o: AppState, key: KeyCode, n: AppState) -> bool {
    let cur = o.commit_cursor;
    match key {
        KeyCode::Down => n == (AppState {
            commit_cursor: if cur + 1 < o.commits@.len() {
                (cur + 1) as usize
            } else {
                cur
            },
            ..o
        }),
        KeyCode::Up => n == (AppState {
            commit_cursor: if cur > 0 {
                (cur - 1) as usize
            } else {
                0
            },
            ..o
        }),
        KeyCode::Char(' ') => {
            &&& n == (AppState { selected: n.selected, ..o })
            &&& n.selected@ == if o.selected@.contains(cur) {
                o.selected@.remove(cur)
            } else {
                o.selected@.insert(cur)
            }
        },
        KeyCode::Enter => if o.selected@ == Set::<usize>::empty() {
            n == o
        } else {
            &&& n == (AppState {
                execution_queue: n.execution_queue,
                execution_results: n.execution_results,
                execution_index: 0,
                screen: Screen::Execution,
                ..o
            })
            &&& strictly_increasing(n.execution_queue@)
            &&& n.execution_queue@.to_set() == o.selected@
            &&& pending_results(
                n.execution_results@,
                queued_commits(n.execution_queue@, o.commits@),
            )
        },
        KeyCode::Esc | KeyCode::Char('q') => n == (AppState { screen: Screen::BranchList, ..o }),
        _ => n == o,
    }
}

/// Handles a key on the commit list: move, toggle the hovered commit, or
/// queue the selection (in commit order) and start executing it.
pub fn handle_key_commit_list(state: &mut AppState, key: KeyCode)
    ensures
        commit_key(*old(state), key, *final(state)),
{
    match key {
        KeyCode::Down => {
            let n = state.commits.len();
            if n > 0 && state.commit_cursor < n - 1 {
                state.commit_cursor = state.commit_cursor + 1;
            }
        },
        KeyCode::Up => {
            if state.commit_cursor > 0 {
                state.commit_cursor = state.commit_cursor - 1;
            }
        },
        KeyCode::Char(' ') => {
            let cur = state.commit_cursor;
            let ghost before = state.selected@;
            if !state.selected.remove(&cur) {
                assert(before.remove(cur) =~= before);
                state.selected.insert(cur);
            }
        },
        KeyCode::Enter => {
            if !state.selected.is_empty() {
                let queue = state.selected.to_vec();
                let mut results: Vec<ExecutionResult> = Vec::new();
                let mut k: usize = 0;
                while k < queue.len()
                    invariant
                        k <= queue@.len(),
                        pending_results(results@, queued_commits(queue@.take(k as int), state.commits@)),
                    decreases queue@.len() - k,
                {
                    let idx = queue[k];
                    proof {
                        assert(queue@.take(k + 1).drop_last() == queue@.take(k as int));
                        assert(queue@.take(k + 1).last() == idx);
                    }
                    if idx < state.commits.len() {
                        let c = state.commits[idx].clone();
                        results.push(ExecutionResult { commit: c, outcome: ExecutionOutcome::Pending });
                    }
                    k = k + 1;
                }
                assert(queue@.take(queue@.len() as int) == queue@);
                state.execution_results = results;
                state.execution_queue = queue;
                state.execution_index = 0;
                state.screen = Screen::Execution;
            }
        },
        KeyCode::Esc | KeyCode::Char('q') => {
            state.screen = Screen::BranchList;
        },
        _ => {},
    }
}

} // verus!
