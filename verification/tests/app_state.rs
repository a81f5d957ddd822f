use gpick::app::{breadcrumb_segments, AppState, Screen};
use gpick::git::Branch;
use gpick::keys::{is_ctrl_c, KeyCode, KeyEvent, KeyModifiers};

#[test]
fn new_starts_on_branch_list_with_no_selection() {
    let state = AppState::new(
        "/tmp".into(),
        "main".to_string(),
        vec![Branch { name: "feature".into(), last_commit_epoch: 0, last_commit_relative: String::new(), is_local: true }],
    );
    assert!(matches!(state.screen, Screen::BranchList));
    assert_eq!(state.branch_cursor, 0);
    assert!(state.selected_branch.is_none());
    assert!(state.selected.is_empty());
}

#[test]
fn is_ctrl_c_matches_control_modified_c() {
    let key = KeyEvent::new(KeyCode::Char('c'), KeyModifiers::control());
    assert!(is_ctrl_c(&key));
}

#[test]
fn is_ctrl_c_does_not_match_plain_c() {
    let key = KeyEvent::new(KeyCode::Char('c'), KeyModifiers::none());
    assert!(!is_ctrl_c(&key));
}

#[test]
fn is_ctrl_c_does_not_match_other_control_keys() {
    let key = KeyEvent::new(KeyCode::Char('a'), KeyModifiers::control());
    assert!(!is_ctrl_c(&key));
}

#[test]
fn breadcrumb_reflects_branch_list_screen() {
    let state = AppState::new("/tmp".into(), "main".into(), vec![]);
    assert_eq!(breadcrumb_segments(&state), vec!["Branches"]);
}

#[test]
fn breadcrumb_includes_selected_branch_on_commit_list() {
    let mut state = AppState::new("/tmp".into(), "main".into(), vec![]);
    state.screen = Screen::CommitList;
    state.selected_branch = Some("feature-x".to_string());
    assert_eq!(breadcrumb_segments(&state), vec!["Branches", "feature-x", "Commits"]);
}

#[test]
fn breadcrumb_is_empty_on_quit() {
    let mut state = AppState::new("/tmp".into(), "main".into(), vec![]);
    state.screen = Screen::Quit;
    assert!(breadcrumb_segments(&state).is_empty());
}

#[test]
fn breadcrumb_on_conflict_pause_names_execution_and_conflict() {
    let mut state = AppState::new("/tmp".into(), "main".into(), vec![]);
    state.screen = Screen::ConflictPause;
    assert_eq!(breadcrumb_segments(&state), vec!["Execution", "Conflict"]);
}

#[test]
fn load_commits_resets_cursor_and_selection() {
    let mut state = AppState::new("/tmp".into(), "main".into(), vec![]);
    state.commit_cursor = 3;
    state.selected.insert(2);
    state.load_commits(vec![]);
    assert_eq!(state.commit_cursor, 0);
    assert!(state.selected.is_empty());
}
