use gpick::app::{AppState, ExecutionOutcome, Screen};
use gpick::git::Commit;
use gpick::keys::KeyCode;
use gpick::ui::commit_list::handle_key_commit_list;

fn commit(msg: &str) -> Commit {
    Commit {
        sha: format!("sha-{msg}"),
        short_sha: msg.to_string(),
        message: msg.to_string(),
        author: "Test".into(),
        date_rfc2822: "Mon, 1 Jan 2024 00:00:00 +0000".into(),
    }
}

fn state_with_commits() -> AppState {
    let mut state = AppState::new("/tmp".into(), "main".into(), vec![]);
    state.load_commits(vec![commit("first"), commit("second"), commit("third")]);
    state
}

#[test]
fn space_toggles_selection_of_hovered_commit() {
    let mut state = state_with_commits();
    handle_key_commit_list(&mut state, KeyCode::Char(' '));
    assert!(state.selected.contains(&0));
    handle_key_commit_list(&mut state, KeyCode::Char(' '));
    assert!(!state.selected.contains(&0));
}

#[test]
fn hover_moves_independently_of_selection() {
    let mut state = state_with_commits();
    handle_key_commit_list(&mut state, KeyCode::Char(' '));
    handle_key_commit_list(&mut state, KeyCode::Down);
    assert_eq!(state.commit_cursor, 1);
    assert!(state.selected.contains(&0));
    assert!(!state.selected.contains(&1));
}

#[test]
fn enter_builds_ascending_execution_queue_and_moves_to_execution() {
    let mut state = state_with_commits();
    handle_key_commit_list(&mut state, KeyCode::Down);
    handle_key_commit_list(&mut state, KeyCode::Char(' '));
    handle_key_commit_list(&mut state, KeyCode::Up);
    handle_key_commit_list(&mut state, KeyCode::Char(' '));
    handle_key_commit_list(&mut state, KeyCode::Enter);
    assert_eq!(state.execution_queue, vec![0, 1]);
    assert_eq!(state.screen, Screen::Execution);
}

#[test]
fn enter_with_no_selection_stays_on_commit_list() {
    let mut state = state_with_commits();
    state.screen = Screen::CommitList;
    handle_key_commit_list(&mut state, KeyCode::Enter);
    assert_eq!(state.screen, Screen::CommitList);
    assert!(state.execution_queue.is_empty());
}

#[test]
fn esc_returns_to_branch_list() {
    let mut state = state_with_commits();
    handle_key_commit_list(&mut state, KeyCode::Esc);
    assert_eq!(state.screen, Screen::BranchList);
}

#[test]
fn q_returns_to_branch_list() {
    let mut state = state_with_commits();
    handle_key_commit_list(&mut state, KeyCode::Char('q'));
    assert_eq!(state.screen, Screen::BranchList);
}

#[test]
fn enter_prepopulates_pending_execution_results() {
    let mut state = state_with_commits();
    handle_key_commit_list(&mut state, KeyCode::Char(' '));
    handle_key_commit_list(&mut state, KeyCode::Down);
    handle_key_commit_list(&mut state, KeyCode::Char(' '));
    handle_key_commit_list(&mut state, KeyCode::Enter);
    assert_eq!(state.execution_results.len(), 2);
    assert!(state.execution_results.iter().all(|r| matches!(r.outcome, ExecutionOutcome::Pending)));
}

#[test]
fn the_commit_cursor_stops_at_both_ends() {
    let mut state = state_with_commits();
    handle_key_commit_list(&mut state, KeyCode::Up);
    assert_eq!(state.commit_cursor, 0);
    for _ in 0..5 {
        handle_key_commit_list(&mut state, KeyCode::Down);
    }
    assert_eq!(state.commit_cursor, 2);
}

#[test]
fn the_queue_follows_commit_order_whatever_the_selection_order() {
    let mut state = state_with_commits();
    handle_key_commit_list(&mut state, KeyCode::Down);
    handle_key_commit_list(&mut state, KeyCode::Down);
    handle_key_commit_list(&mut state, KeyCode::Char(' '));
    handle_key_commit_list(&mut state, KeyCode::Up);
    handle_key_commit_list(&mut state, KeyCode::Up);
    handle_key_commit_list(&mut state, KeyCode::Char(' '));
    handle_key_commit_list(&mut state, KeyCode::Enter);
    assert_eq!(state.execution_queue, vec![0, 2]);
    assert_eq!(state.execution_index, 0);
    let shas: Vec<&str> = state.execution_results.iter().map(|r| r.commit.sha.as_str()).collect();
    assert_eq!(shas, vec!["sha-first", "sha-third"]);
}

#[test]
fn loading_commits_resets_the_cursor_and_the_selection() {
    let mut state = state_with_commits();
    handle_key_commit_list(&mut state, KeyCode::Down);
    handle_key_commit_list(&mut state, KeyCode::Char(' '));
    state.load_commits(vec![commit("other")]);
    assert_eq!(state.commit_cursor, 0);
    assert!(state.selected.is_empty());
    assert_eq!(state.commits.len(), 1);
}
