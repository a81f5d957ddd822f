use gpick::app::{AppState, ExecutionOutcome, ExecutionResult, Flow, PauseReason, Screen, Step};
use gpick::git::{Commit, GitOp, GitReply};
use gpick::keys::KeyCode;
use gpick::ui::conflict_pause::handle_key_conflict_pause;
use gpick::ui::run::resume;

fn commit(msg: &str) -> Commit {
    Commit {
        sha: format!("sha-{msg}"),
        short_sha: msg.to_string(),
        message: msg.to_string(),
        author: "Test".into(),
        date_rfc2822: "Mon, 1 Jan 2024 00:00:00 +0000".into(),
    }
}

fn ok_reply() -> GitReply {
    GitReply::Exited { success: true, stdout: String::new(), stderr: String::new() }
}

fn err_reply(stderr: &str) -> GitReply {
    GitReply::Exited { success: false, stdout: String::new(), stderr: stderr.to_string() }
}

fn strings(v: &[&str]) -> Vec<String> {
    v.iter().map(|s| s.to_string()).collect()
}

/// The state right after the cherry-pick of the first queued commit hit a
/// conflict.
fn conflicted_state() -> AppState {
    let mut state = AppState::new("/tmp".into(), "base-sha".into(), vec![]);
    state.load_commits(vec![commit("feature change")]);
    state.selected.insert(0);
    state.execution_queue = vec![0];
    state.execution_index = 0;
    state.execution_results =
        vec![ExecutionResult { commit: state.commits[0].clone(), outcome: ExecutionOutcome::Pending }];
    state.conflict_message = Some("conflict in a.txt".to_string());
    state.pause_reason = Some(PauseReason::CherryPickConflict);
    state.screen = Screen::ConflictPause;
    state
}

/// Presses `key` and, when it asks git for something, hands back `reply`.
fn press_and_answer(state: &mut AppState, key: KeyCode, reply: &GitReply) -> Option<(Vec<String>, Step)> {
    match handle_key_conflict_pause(state, key) {
        Step::Run(op, flow) => {
            let args = op.args();
            let next = resume(state, flow, reply);
            Some((args, next))
        }
        Step::Done => None,
    }
}

#[test]
fn abort_clears_conflict_and_returns_to_commit_list() {
    let mut state = conflicted_state();
    let (args, _) = press_and_answer(&mut state, KeyCode::Char('a'), &ok_reply()).unwrap();
    assert_eq!(args, strings(&["cherry-pick", "--abort"]));
    assert!(state.conflict_message.is_none());
    assert_eq!(state.screen, Screen::CommitList);
    assert!(state.execution_queue.is_empty());
}

#[test]
fn abort_removes_already_applied_commits_from_selected() {
    let mut state = conflicted_state();
    state.selected.insert(0);
    state.selected.insert(1);
    state.execution_queue = vec![0, 1];
    state.execution_index = 1;

    press_and_answer(&mut state, KeyCode::Char('a'), &ok_reply());

    assert!(!state.selected.contains(&0));
    assert!(state.selected.contains(&1));
}

#[test]
fn q_quits_from_conflict_pause() {
    let mut state = conflicted_state();
    handle_key_conflict_pause(&mut state, KeyCode::Char('q'));
    assert_eq!(state.screen, Screen::Quit);
}

#[test]
fn esc_quits_from_conflict_pause() {
    let mut state = conflicted_state();
    handle_key_conflict_pause(&mut state, KeyCode::Esc);
    assert_eq!(state.screen, Screen::Quit);
}

#[test]
fn continue_after_resolving_advances_and_resumes_execution() {
    let mut state = conflicted_state();
    let (args, next) = press_and_answer(&mut state, KeyCode::Char('c'), &ok_reply()).unwrap();
    assert_eq!(args, strings(&["cherry-pick", "--continue"]));
    let (op, flow) = match next {
        Step::Run(op, flow) => (op, flow),
        Step::Done => panic!("the picked commit is re-authored next"),
    };
    assert_eq!(
        op.args(),
        strings(&[
            "commit",
            "--amend",
            "--allow-empty",
            "--reset-author",
            "-s",
            "--no-edit",
            "--date=Mon, 1 Jan 2024 00:00:00 +0000"
        ])
    );
    assert!(matches!(resume(&mut state, flow, &ok_reply()), Step::Done));
    assert!(state.conflict_message.is_none());
    assert_eq!(state.execution_index, 1);
    assert_eq!(state.screen, Screen::Execution);
    assert!(matches!(state.execution_results[0].outcome, ExecutionOutcome::Done));
}

#[test]
fn continue_with_the_conflict_unresolved_stays_paused_with_git_s_message() {
    let mut state = conflicted_state();
    let (_, next) = press_and_answer(&mut state, KeyCode::Char('c'), &err_reply("error: unresolved\n")).unwrap();
    assert!(matches!(next, Step::Done));
    assert_eq!(state.screen, Screen::ConflictPause);
    assert_eq!(state.conflict_message, Some("error: unresolved".to_string()));
    assert_eq!(state.execution_index, 0);
}

#[test]
fn continue_that_resolves_to_nothing_offers_an_empty_commit() {
    let mut state = conflicted_state();
    let msg = "The previous cherry-pick is now empty, possibly due to conflict resolution.";
    press_and_answer(&mut state, KeyCode::Char('c'), &err_reply(msg));
    assert_eq!(state.pause_reason, Some(PauseReason::EmptyAfterResolve));
    let (args, next) = press_and_answer(&mut state, KeyCode::Char('c'), &ok_reply()).unwrap();
    assert_eq!(args, strings(&["commit", "--allow-empty", "--no-edit"]));
    assert!(matches!(next, Step::Run(GitOp::AmendReauthor(_), Flow::ResumeAmend)));
}

#[test]
fn amend_failure_continue_retries_amend_directly_without_cherry_pick_continue() {
    let mut state = conflicted_state();
    state.conflict_message = Some("amend failed".to_string());
    state.pause_reason = Some(PauseReason::AmendFailure);
    let (args, next) = press_and_answer(&mut state, KeyCode::Char('c'), &ok_reply()).unwrap();
    assert_eq!(args[0], "commit");
    assert_eq!(args[1], "--amend");
    assert!(matches!(next, Step::Done));
    assert!(state.conflict_message.is_none());
    assert_eq!(state.execution_index, 1);
    assert_eq!(state.screen, Screen::Execution);
    assert!(matches!(state.execution_results[0].outcome, ExecutionOutcome::Done));
}

#[test]
fn amend_failure_abort_resets_hard_to_undo_the_landed_commit() {
    let mut state = conflicted_state();
    state.pause_reason = Some(PauseReason::AmendFailure);
    let (args, _) = press_and_answer(&mut state, KeyCode::Char('a'), &ok_reply()).unwrap();
    assert_eq!(args, strings(&["reset", "--hard", "HEAD~1"]));
    assert_eq!(state.screen, Screen::CommitList);
    assert!(state.selected.contains(&0));
}

#[test]
fn a_failed_abort_keeps_the_pause_and_shows_the_error() {
    let mut state = conflicted_state();
    press_and_answer(&mut state, KeyCode::Char('a'), &err_reply("fatal: no cherry-pick in progress\n"));
    assert_eq!(state.screen, Screen::ConflictPause);
    assert_eq!(state.conflict_message, Some("git command failed: fatal: no cherry-pick in progress".to_string()));
    assert_eq!(state.execution_queue, vec![0]);
}

#[test]
fn a_step_error_can_be_retried_or_given_up_without_git() {
    let mut state = conflicted_state();
    state.pause_reason = Some(PauseReason::StepError);
    assert!(press_and_answer(&mut state, KeyCode::Char('c'), &ok_reply()).is_none());
    assert_eq!(state.screen, Screen::Execution);
    assert!(state.pause_reason.is_none());

    let mut state = conflicted_state();
    state.pause_reason = Some(PauseReason::StepError);
    assert!(press_and_answer(&mut state, KeyCode::Char('a'), &ok_reply()).is_none());
    assert_eq!(state.screen, Screen::CommitList);
    assert!(state.execution_queue.is_empty());
}

#[test]
fn other_keys_do_nothing_while_paused() {
    let mut state = conflicted_state();
    assert!(press_and_answer(&mut state, KeyCode::Char('x'), &ok_reply()).is_none());
    assert_eq!(state.screen, Screen::ConflictPause);
    assert_eq!(state.conflict_message, Some("conflict in a.txt".to_string()));
}

#[test]
fn continue_after_resolving_marks_result_done_not_failed() {
    let mut state = conflicted_state();
    state.execution_results[0].outcome = ExecutionOutcome::Failed("conflict in a.txt".into());
    let (_, next) = press_and_answer(&mut state, KeyCode::Char('c'), &ok_reply()).unwrap();
    if let Step::Run(_, flow) = next {
        resume(&mut state, flow, &ok_reply());
    }
    assert!(matches!(state.execution_results[0].outcome, ExecutionOutcome::Done));
}
