use gpick::app::{AppState, BulkDeleteState, Flow, KeyOutcome, PendingDelete, Screen, Step};
use gpick::git::{Branch, GitOp, GitReply};
use gpick::keys::{KeyCode, KeyModifiers};
use gpick::ui::branch_list::{
    branch_list_title, bulk_delete_progress_text, confirm_prompt, finish_bulk_delete,
    handle_key_branch_list, handle_key_delete_confirm, handle_key_push_confirm, is_shown, parse_worktree_path,
    push_confirm_prompt, select_range, spinner_frame, split_remote, step_bulk_delete, visible_branches,
};
use gpick::ui::run::resume;

fn branch(name: &str, is_local: bool) -> Branch {
    Branch { name: name.to_string(), last_commit_epoch: 0, last_commit_relative: String::new(), is_local }
}

fn state_with_branches(names: &[&str]) -> AppState {
    AppState::new("/tmp".into(), "main".into(), names.iter().map(|n| branch(n, true)).collect())
}

fn ok_reply(stdout: &str) -> GitReply {
    GitReply::Exited { success: true, stdout: stdout.to_string(), stderr: String::new() }
}

fn err_reply(stderr: &str) -> GitReply {
    GitReply::Exited { success: false, stdout: String::new(), stderr: stderr.to_string() }
}

fn strings(v: &[&str]) -> Vec<String> {
    v.iter().map(|s| s.to_string()).collect()
}

fn names_of(state: &AppState) -> Vec<String> {
    state.branches.iter().map(|b| b.name.clone()).collect()
}

fn press(state: &mut AppState, key: KeyCode) -> Step {
    handle_key_branch_list(state, key, KeyModifiers::none())
}

#[test]
fn branch_list_title_shows_the_visible_count() {
    let state = state_with_branches(&["a", "b", "c"]);
    assert!(branch_list_title(&state, 3).starts_with("Branches (3)"));
}

#[test]
fn branch_list_title_count_reflects_the_filtered_amount_not_the_total() {
    let mut state = state_with_branches(&["a", "b", "c"]);
    state.branch_filter = "a".to_string();
    let visible = visible_branches(&state).len();
    assert_eq!(visible, 1);
    assert!(branch_list_title(&state, visible).starts_with("Branches (1)"));
}

#[test]
fn down_moves_cursor_and_clamps_at_end() {
    let mut state = state_with_branches(&["a", "b"]);
    press(&mut state, KeyCode::Down);
    assert_eq!(state.branch_cursor, 1);
    press(&mut state, KeyCode::Down);
    assert_eq!(state.branch_cursor, 1);
}

#[test]
fn up_clamps_at_zero() {
    let mut state = state_with_branches(&["a", "b"]);
    press(&mut state, KeyCode::Up);
    assert_eq!(state.branch_cursor, 0);
}

#[test]
fn shift_down_extends_a_contiguous_range_selection() {
    let mut state = state_with_branches(&["a", "b", "c", "d"]);
    handle_key_branch_list(&mut state, KeyCode::Down, KeyModifiers::shift());
    handle_key_branch_list(&mut state, KeyCode::Down, KeyModifiers::shift());
    assert_eq!(state.branch_cursor, 2);
    assert_eq!(state.selected_branches.to_vec(), strings(&["a", "b", "c"]));
}

#[test]
fn shift_up_extends_the_range_upward_from_the_anchor() {
    let mut state = state_with_branches(&["a", "b", "c", "d"]);
    state.branch_cursor = 3;
    handle_key_branch_list(&mut state, KeyCode::Up, KeyModifiers::shift());
    handle_key_branch_list(&mut state, KeyCode::Up, KeyModifiers::shift());
    assert_eq!(state.branch_cursor, 1);
    assert_eq!(state.selected_branches.to_vec(), strings(&["b", "c", "d"]));
}

#[test]
fn plain_arrow_after_shift_range_resets_the_anchor() {
    let mut state = state_with_branches(&["a", "b", "c"]);
    handle_key_branch_list(&mut state, KeyCode::Down, KeyModifiers::shift());
    assert!(state.range_anchor.is_some());
    press(&mut state, KeyCode::Down);
    assert!(state.range_anchor.is_none());
}

#[test]
fn a_new_shift_range_starts_fresh_from_the_current_cursor() {
    let mut state = state_with_branches(&["a", "b", "c", "d"]);
    handle_key_branch_list(&mut state, KeyCode::Down, KeyModifiers::shift());
    press(&mut state, KeyCode::Down);
    state.selected_branches.clear();
    handle_key_branch_list(&mut state, KeyCode::Down, KeyModifiers::shift());
    assert_eq!(state.selected_branches.to_vec(), strings(&["c", "d"]));
}

#[test]
fn slash_enters_search_mode_and_typing_filters_visible_branches() {
    let mut state = state_with_branches(&["feature-x", "bugfix-y"]);
    press(&mut state, KeyCode::Char('/'));
    assert!(state.search_active);
    press(&mut state, KeyCode::Char('f'));
    press(&mut state, KeyCode::Char('e'));
    let visible = visible_branches(&state);
    assert_eq!(visible.len(), 1);
    assert_eq!(visible[0].name, "feature-x");
}

#[test]
fn typing_without_search_mode_does_not_filter() {
    let mut state = state_with_branches(&["feature-x", "bugfix-y"]);
    press(&mut state, KeyCode::Char('f'));
    assert_eq!(state.branch_filter, "");
    assert_eq!(visible_branches(&state).len(), 2);
}

#[test]
fn enter_exits_search_mode_and_keeps_the_filter() {
    let mut state = state_with_branches(&["feature-x", "bugfix-y"]);
    press(&mut state, KeyCode::Char('/'));
    press(&mut state, KeyCode::Char('f'));
    press(&mut state, KeyCode::Enter);
    assert!(!state.search_active);
    assert_eq!(state.branch_filter, "f");
}

#[test]
fn esc_exits_search_mode_and_clears_the_filter() {
    let mut state = state_with_branches(&["feature-x", "bugfix-y"]);
    press(&mut state, KeyCode::Char('/'));
    press(&mut state, KeyCode::Char('f'));
    press(&mut state, KeyCode::Esc);
    assert!(!state.search_active);
    assert_eq!(state.branch_filter, "");
    assert_eq!(state.screen, Screen::BranchList);
}

#[test]
fn esc_no_longer_quits_the_branch_list() {
    let mut state = state_with_branches(&["a"]);
    press(&mut state, KeyCode::Esc);
    assert_eq!(state.screen, Screen::BranchList);
}

#[test]
fn a_toggles_show_all_branches() {
    let mut state = state_with_branches(&["a"]);
    assert!(!state.show_all_branches);
    press(&mut state, KeyCode::Char('a'));
    assert!(state.show_all_branches);
    press(&mut state, KeyCode::Char('a'));
    assert!(!state.show_all_branches);
}

#[test]
fn fully_picked_branches_are_hidden_unless_show_all_is_on() {
    let mut state = state_with_branches(&["picked", "unpicked"]);
    state.fully_picked.insert("picked".to_string());

    let visible = visible_branches(&state);
    assert_eq!(visible.len(), 1);
    assert_eq!(visible[0].name, "unpicked");

    state.show_all_branches = true;
    assert_eq!(visible_branches(&state).len(), 2);
}

#[test]
fn p_sets_pending_push() {
    let mut state = state_with_branches(&["a"]);
    press(&mut state, KeyCode::Char('p'));
    assert!(state.pending_push);
}

#[test]
fn p_does_nothing_when_there_is_nothing_to_push() {
    let mut state = state_with_branches(&["a"]);
    state.push_ahead_count = Some(0);
    press(&mut state, KeyCode::Char('p'));
    assert!(!state.pending_push);
}

#[test]
fn p_still_works_when_the_ahead_count_is_unknown() {
    let mut state = state_with_branches(&["a"]);
    state.push_ahead_count = None;
    press(&mut state, KeyCode::Char('p'));
    assert!(state.pending_push);
}

#[test]
fn n_cancels_pending_push_without_pushing() {
    let mut state = state_with_branches(&["a"]);
    state.pending_push = true;
    let consumed = handle_key_push_confirm(&mut state, KeyCode::Char('n'));
    assert!(consumed.is_consumed());
    assert!(!state.pending_push);
}

#[test]
fn no_pending_push_is_not_consumed() {
    let mut state = state_with_branches(&["a"]);
    assert!(!handle_key_push_confirm(&mut state, KeyCode::Char('y')).is_consumed());
}

#[test]
fn space_selects_the_hovered_branch_and_advances_to_the_next_one() {
    let mut state = state_with_branches(&["a", "b", "c"]);
    press(&mut state, KeyCode::Char(' '));
    assert!(state.selected_branches.contains("a"));
    assert_eq!(state.branch_cursor, 1);
}

#[test]
fn space_does_not_advance_past_the_last_branch() {
    let mut state = state_with_branches(&["a", "b"]);
    state.branch_cursor = 1;
    press(&mut state, KeyCode::Char(' '));
    assert!(state.selected_branches.contains("b"));
    assert_eq!(state.branch_cursor, 1);
}

#[test]
fn space_toggles_off_when_pressed_again_on_the_same_branch() {
    let mut state = state_with_branches(&["a", "b"]);
    press(&mut state, KeyCode::Char(' '));
    press(&mut state, KeyCode::Up);
    press(&mut state, KeyCode::Char(' '));
    assert!(!state.selected_branches.contains("a"));
}

#[test]
fn delete_with_multi_selection_sets_pending_bulk_delete() {
    let mut state = state_with_branches(&["a", "b", "c"]);
    press(&mut state, KeyCode::Char(' '));
    press(&mut state, KeyCode::Char(' '));
    press(&mut state, KeyCode::Delete);
    assert_eq!(state.pending_delete, Some(PendingDelete::Bulk(vec!["a".to_string(), "b".to_string()])));
}

#[test]
fn delete_without_multi_selection_still_targets_the_hovered_branch() {
    let mut state = state_with_branches(&["a", "b"]);
    press(&mut state, KeyCode::Delete);
    assert_eq!(state.pending_delete, Some(PendingDelete::Local("a".to_string())));
}

#[test]
fn y_on_bulk_starts_incremental_delete_without_deleting_yet() {
    let mut state = state_with_branches(&["one", "two"]);
    state.pending_delete = Some(PendingDelete::Bulk(vec!["one".to_string(), "two".to_string()]));

    handle_key_delete_confirm(&mut state, KeyCode::Char('y'));

    assert_eq!(state.pending_delete, None);
    let bulk = state.bulk_delete.as_ref().expect("bulk delete should have started");
    assert_eq!(bulk.names, vec!["one".to_string(), "two".to_string()]);
    assert_eq!(bulk.index, 0);
    assert_eq!(state.branches.len(), 2);
}

#[test]
fn finish_bulk_delete_clears_state_and_reports_no_error_on_success() {
    let mut state = state_with_branches(&["a"]);
    state.bulk_delete = Some(BulkDeleteState { names: vec!["a".to_string()], index: 1, errors: Vec::new() });

    finish_bulk_delete(&mut state);

    assert!(state.bulk_delete.is_none());
    assert!(state.last_error.is_none());
}

#[test]
fn finish_bulk_delete_reports_errors_for_branches_that_failed() {
    let mut state = state_with_branches(&["missing"]);
    state.bulk_delete = Some(BulkDeleteState {
        names: vec!["missing".to_string()],
        index: 1,
        errors: vec!["missing: some git error".to_string()],
    });

    finish_bulk_delete(&mut state);

    assert!(state.bulk_delete.is_none());
    assert!(state.last_error.is_some());
}

#[test]
fn bulk_delete_progress_text_shows_position_and_current_branch() {
    let bulk = BulkDeleteState {
        names: vec!["a".to_string(), "b".to_string(), "c".to_string()],
        index: 1,
        errors: Vec::new(),
    };
    let text = bulk_delete_progress_text(&bulk);
    assert!(text.contains("2/3"));
    assert!(text.contains("b"));
}

#[test]
fn enter_selects_branch_and_moves_to_commit_list() {
    let mut state = state_with_branches(&["a", "b"]);
    press(&mut state, KeyCode::Down);
    press(&mut state, KeyCode::Enter);
    assert_eq!(state.selected_branch, Some("b".to_string()));
    assert_eq!(state.screen, Screen::CommitList);
}

#[test]
fn q_quits() {
    let mut state = state_with_branches(&["a"]);
    press(&mut state, KeyCode::Char('q'));
    assert_eq!(state.screen, Screen::Quit);
}

#[test]
fn delete_key_on_local_branch_sets_pending_local_delete() {
    let mut state = state_with_branches(&["a", "b"]);
    press(&mut state, KeyCode::Delete);
    assert_eq!(state.pending_delete, Some(PendingDelete::Local("a".to_string())));
}

#[test]
fn delete_key_on_remote_branch_sets_pending_remote_delete() {
    let mut state = AppState::new("/tmp".into(), "main".into(), vec![branch("origin/feature", false)]);
    press(&mut state, KeyCode::Delete);
    assert_eq!(state.pending_delete, Some(PendingDelete::Remote("origin/feature".to_string())));
}

#[test]
fn char_d_outside_search_mode_does_nothing() {
    let mut state = state_with_branches(&["dev", "feature"]);
    press(&mut state, KeyCode::Char('d'));
    assert_eq!(state.branch_filter, "");
    assert_eq!(state.pending_delete, None);
    assert_eq!(visible_branches(&state).len(), 2);
}

#[test]
fn other_keys_are_swallowed_while_delete_is_pending() {
    let mut state = state_with_branches(&["a", "b"]);
    state.pending_delete = Some(PendingDelete::Local("a".to_string()));
    let consumed = handle_key_delete_confirm(&mut state, KeyCode::Down);
    assert!(consumed.is_consumed());
    assert_eq!(state.branch_cursor, 0);
    assert_eq!(state.pending_delete, Some(PendingDelete::Local("a".to_string())));
}

#[test]
fn no_pending_delete_is_not_consumed() {
    let mut state = state_with_branches(&["a"]);
    let consumed = handle_key_delete_confirm(&mut state, KeyCode::Char('y'));
    assert!(!consumed.is_consumed());
}

#[test]
fn n_cancels_pending_delete_without_deleting() {
    let mut state = state_with_branches(&["a"]);
    state.pending_delete = Some(PendingDelete::Local("a".to_string()));
    handle_key_delete_confirm(&mut state, KeyCode::Char('n'));
    assert_eq!(state.pending_delete, None);
    assert!(state.branches.iter().any(|b| b.name == "a"));
}

#[test]
fn parse_worktree_path_extracts_the_path_from_either_message_shape() {
    assert_eq!(
        parse_worktree_path("error: Cannot delete branch 'foo' checked out at '/tmp/wt'"),
        Some("/tmp/wt".to_string())
    );
    assert_eq!(
        parse_worktree_path("fatal: 'foo' is already used by worktree at '/tmp/wt2'"),
        Some("/tmp/wt2".to_string())
    );
    assert_eq!(parse_worktree_path("error: branch 'foo' not fully merged"), None);
}

// ---------------------------------------------------------------------
// The git side of the flows, driven with the replies git would give
// ---------------------------------------------------------------------

#[test]
fn y_on_local_delete_asks_git_to_force_delete_the_branch() {
    let mut state = state_with_branches(&["throwaway"]);
    state.pending_delete = Some(PendingDelete::Local("throwaway".to_string()));
    match handle_key_delete_confirm(&mut state, KeyCode::Char('y')) {
        KeyOutcome::Consumed(Step::Run(op, Flow::DeleteLocal(name))) => {
            assert_eq!(op.args(), strings(&["branch", "-D", "throwaway"]));
            assert_eq!(name, "throwaway");
        }
        other => panic!("unexpected outcome {other:?}"),
    }
}

#[test]
fn y_deletes_the_local_branch_and_clears_pending_delete() {
    let mut state = state_with_branches(&["keep", "throwaway"]);
    state.branch_cursor = 1;
    state.pending_delete = Some(PendingDelete::Local("throwaway".to_string()));
    let step = resume(&mut state, Flow::DeleteLocal("throwaway".to_string()), &ok_reply(""));
    assert!(matches!(step, Step::Done));
    assert_eq!(state.pending_delete, None);
    assert_eq!(names_of(&state), strings(&["keep"]));
    assert_eq!(state.branch_cursor, 0);
    assert!(state.last_error.is_none());
}

#[test]
fn local_delete_checked_out_elsewhere_offers_worktree_removal() {
    let mut state = state_with_branches(&["feature"]);
    state.pending_delete = Some(PendingDelete::Local("feature".to_string()));
    let reply = err_reply("error: Cannot delete branch 'feature' checked out at '/tmp/wt'\n");
    resume(&mut state, Flow::DeleteLocal("feature".to_string()), &reply);
    assert_eq!(
        state.pending_delete,
        Some(PendingDelete::RemoveWorktree { branch: "feature".to_string(), path: "/tmp/wt".to_string() })
    );
    assert_eq!(names_of(&state), strings(&["feature"]));
}

#[test]
fn a_failed_local_delete_reports_git_s_message() {
    let mut state = state_with_branches(&["feature"]);
    state.pending_delete = Some(PendingDelete::Local("feature".to_string()));
    resume(&mut state, Flow::DeleteLocal("feature".to_string()), &err_reply("  error: nope \n"));
    assert_eq!(state.pending_delete, None);
    assert_eq!(state.last_error, Some("git command failed: error: nope".to_string()));
    assert_eq!(names_of(&state), strings(&["feature"]));
}

#[test]
fn confirming_worktree_removal_removes_it_and_retries_delete() {
    let mut state = state_with_branches(&["feature"]);
    state.pending_delete =
        Some(PendingDelete::RemoveWorktree { branch: "feature".to_string(), path: "/tmp/wt".to_string() });
    let (op, flow) = match handle_key_delete_confirm(&mut state, KeyCode::Char('y')) {
        KeyOutcome::Consumed(Step::Run(op, flow)) => (op, flow),
        other => panic!("unexpected outcome {other:?}"),
    };
    assert_eq!(op.args(), strings(&["worktree", "remove", "/tmp/wt"]));
    let (op, flow) = match resume(&mut state, flow, &ok_reply("")) {
        Step::Run(op, flow) => (op, flow),
        Step::Done => panic!("the delete should be retried"),
    };
    assert_eq!(op.args(), strings(&["branch", "-D", "feature"]));
    assert!(matches!(resume(&mut state, flow, &ok_reply("")), Step::Done));
    assert_eq!(state.pending_delete, None);
    assert!(state.branches.is_empty());
}

#[test]
fn y_deletes_the_remote_branch_via_push_delete() {
    let mut state = AppState::new("/tmp".into(), "main".into(), vec![branch("upstream/topic/x", false)]);
    state.pending_delete = Some(PendingDelete::Remote("upstream/topic/x".to_string()));
    match handle_key_delete_confirm(&mut state, KeyCode::Char('y')) {
        KeyOutcome::Consumed(Step::Run(op, Flow::DeleteRemote(name))) => {
            assert_eq!(op.args(), strings(&["push", "upstream", "--delete", "topic/x"]));
            assert_eq!(name, "upstream/topic/x");
        }
        other => panic!("unexpected outcome {other:?}"),
    }
}

#[test]
fn y_deleting_an_already_gone_remote_branch_prunes_the_stale_ref_without_erroring() {
    let mut state = AppState::new("/tmp".into(), "main".into(), vec![branch("origin/ghost", false)]);
    state.pending_delete = Some(PendingDelete::Remote("origin/ghost".to_string()));
    let reply = err_reply("error: unable to delete 'ghost': remote ref does not exist\n");
    let (op, flow) = match resume(&mut state, Flow::DeleteRemote("origin/ghost".to_string()), &reply) {
        Step::Run(op, flow) => (op, flow),
        Step::Done => panic!("the stale ref should be pruned"),
    };
    assert_eq!(op.args(), strings(&["update-ref", "-d", "refs/remotes/origin/ghost"]));
    resume(&mut state, flow, &ok_reply(""));
    assert_eq!(state.pending_delete, None);
    assert!(state.last_error.is_none());
    assert!(state.branches.is_empty());
}

#[test]
fn step_bulk_delete_processes_one_branch_and_advances() {
    let mut state = AppState::new("/tmp".into(), "main".into(), vec![branch("one", true), branch("origin/two", false)]);
    state.selected_branches.insert("one".to_string());
    state.selected_branches.insert("origin/two".to_string());
    state.bulk_delete = Some(BulkDeleteState {
        names: strings(&["one", "origin/two"]),
        index: 0,
        errors: Vec::new(),
    });

    let (op, flow) = match step_bulk_delete(&state) {
        Step::Run(op, flow) => (op, flow),
        Step::Done => panic!("a branch is left"),
    };
    assert_eq!(op.args(), strings(&["branch", "-D", "one"]));
    resume(&mut state, flow, &ok_reply(""));
    assert_eq!(state.bulk_delete.as_ref().unwrap().index, 1);
    assert_eq!(names_of(&state), strings(&["origin/two"]));
    assert_eq!(state.selected_branches.to_vec(), strings(&["origin/two"]));

    let (op, flow) = match step_bulk_delete(&state) {
        Step::Run(op, flow) => (op, flow),
        Step::Done => panic!("a branch is left"),
    };
    assert_eq!(op.args(), strings(&["push", "origin", "--delete", "two"]));
    resume(&mut state, flow, &err_reply("fatal: could not read from remote\n"));
    let bulk = state.bulk_delete.as_ref().unwrap();
    assert_eq!(bulk.index, 2);
    assert_eq!(bulk.errors, strings(&["origin/two: git command failed: fatal: could not read from remote"]));
    assert!(matches!(step_bulk_delete(&state), Step::Done));

    finish_bulk_delete(&mut state);
    assert!(state.bulk_delete.is_none());
    assert_eq!(state.last_error, Some("origin/two: git command failed: fatal: could not read from remote".to_string()));
}

#[test]
fn finish_bulk_delete_joins_every_error() {
    let mut state = state_with_branches(&[]);
    state.bulk_delete =
        Some(BulkDeleteState { names: strings(&["a", "b"]), index: 2, errors: strings(&["a: x", "b: y"]) });
    finish_bulk_delete(&mut state);
    assert_eq!(state.last_error, Some("a: x; b: y".to_string()));
}

#[test]
fn p_computes_how_many_commits_would_be_pushed() {
    let mut state = state_with_branches(&["a"]);
    let (op, flow) = match press(&mut state, KeyCode::Char('p')) {
        Step::Run(op, flow) => (op, flow),
        Step::Done => panic!("the count is asked of git"),
    };
    assert_eq!(op.args(), strings(&["rev-list", "--count", "--end-of-options", "origin/master..main"]));
    resume(&mut state, flow, &ok_reply("1\n"));
    assert_eq!(state.pending_push_count, Some(1));
    assert!(push_confirm_prompt(&state).contains("1 commit)"));
}

#[test]
fn y_pushes_base_to_origin_master() {
    let mut state = state_with_branches(&["a"]);
    state.pending_push = true;
    let (op, flow) = match handle_key_push_confirm(&mut state, KeyCode::Char('y')) {
        KeyOutcome::Consumed(Step::Run(op, flow)) => (op, flow),
        other => panic!("unexpected outcome {other:?}"),
    };
    assert_eq!(op.args(), strings(&["push", "origin", "main:master"]));
    let (op, flow) = match resume(&mut state, flow, &ok_reply("")) {
        Step::Run(op, flow) => (op, flow),
        Step::Done => panic!("the count is refreshed after a push"),
    };
    assert!(!state.pending_push);
    assert_eq!(op.args(), strings(&["rev-list", "--count", "--end-of-options", "origin/master..main"]));
    resume(&mut state, flow, &ok_reply("0"));
    assert_eq!(state.push_ahead_count, Some(0));
    assert!(state.last_error.is_none());
}

#[test]
fn a_failed_push_reports_the_error() {
    let mut state = state_with_branches(&["a"]);
    let step = resume(&mut state, Flow::Push, &err_reply("rejected\n"));
    assert!(matches!(step, Step::Done));
    assert_eq!(state.last_error, Some("git command failed: rejected".to_string()));
}

#[test]
fn enter_asks_git_for_the_commits_of_the_opened_branch() {
    let mut state = state_with_branches(&["feature"]);
    let (op, flow) = match press(&mut state, KeyCode::Enter) {
        Step::Run(op, flow) => (op, flow),
        Step::Done => panic!("the commits come from git"),
    };
    let args = op.args();
    assert_eq!(args[0], "log");
    assert_eq!(args.last().unwrap(), "main..feature");
    let raw = "abcdef1234\u{1f}abcdef1\u{1f}Fix it\u{1f}Ann\u{1f}Mon, 1 Jan 2024 00:00:00 +0000";
    let (op, flow) = match resume(&mut state, flow, &ok_reply(raw)) {
        Step::Run(op, flow) => (op, flow),
        Step::Done => panic!("git cherry runs next"),
    };
    assert_eq!(op.args(), strings(&["cherry", "--end-of-options", "main", "feature"]));
    resume(&mut state, flow, &ok_reply("+ abcdef1234"));
    assert_eq!(state.commits.len(), 1);
    assert_eq!(state.commits[0].short_sha, "abcdef1");
    assert_eq!(state.commits[0].message, "Fix it");
}

#[test]
fn opening_a_branch_filters_out_commits_that_would_land_as_empty_picks() {
    let mut state = state_with_branches(&["feature"]);
    let flow = match press(&mut state, KeyCode::Enter) {
        Step::Run(_, flow) => flow,
        Step::Done => panic!("the commits come from git"),
    };
    let raw = "s1\u{1f}a\u{1f}one\u{1f}Ann\u{1f}d\n\
               s2\u{1f}b\u{1f}two\u{1f}Ann\u{1f}d\n\
               s3\u{1f}c\u{1f}three\u{1f}Ann\u{1f}d";
    let flow = match resume(&mut state, flow, &ok_reply(raw)) {
        Step::Run(_, flow) => flow,
        Step::Done => panic!("git cherry runs next"),
    };
    resume(&mut state, flow, &ok_reply("- s1\n+ s2\n- s3"));
    let shas: Vec<&str> = state.commits.iter().map(|c| c.sha.as_str()).collect();
    assert_eq!(shas, vec!["s2"]);
    assert_eq!(state.commit_cursor, 0);
    assert!(state.selected.is_empty());
    assert!(state.last_error.is_none());
}

#[test]
fn a_failed_git_cherry_keeps_every_listed_commit() {
    let mut state = state_with_branches(&["feature"]);
    let flow = match press(&mut state, KeyCode::Enter) {
        Step::Run(_, flow) => flow,
        Step::Done => panic!("the commits come from git"),
    };
    let raw = "s1\u{1f}a\u{1f}one\u{1f}Ann\u{1f}d";
    let flow = match resume(&mut state, flow, &ok_reply(raw)) {
        Step::Run(_, flow) => flow,
        Step::Done => panic!("git cherry runs next"),
    };
    resume(&mut state, flow, &err_reply("fatal: bad revision"));
    assert_eq!(state.commits.len(), 1);
}

#[test]
fn a_failed_listing_shows_the_error_and_runs_nothing_more() {
    let mut state = state_with_branches(&["feature"]);
    let flow = match press(&mut state, KeyCode::Enter) {
        Step::Run(_, flow) => flow,
        Step::Done => panic!("the commits come from git"),
    };
    assert!(matches!(resume(&mut state, flow, &err_reply("fatal: bad range")), Step::Done));
    assert!(state.commits.is_empty());
    assert_eq!(state.last_error, Some("git command failed: fatal: bad range".to_string()));
}

#[test]
fn search_is_fuzzy() {
    let mut state = state_with_branches(&["feature-x", "bugfix-y", "fix"]);
    state.branch_filter = "fx".to_string();
    let names: Vec<&str> = visible_branches(&state).iter().map(|b| b.name.as_str()).collect();
    assert_eq!(names, vec!["feature-x", "bugfix-y", "fix"]);
    state.branch_filter = "FtX".to_string();
    let names: Vec<&str> = visible_branches(&state).iter().map(|b| b.name.as_str()).collect();
    assert_eq!(names, vec!["feature-x"]);
    state.branch_filter = "xf".to_string();
    assert!(visible_branches(&state).is_empty());
}

#[test]
fn select_range_adds_the_same_names_in_either_order() {
    let mut a = state_with_branches(&["a", "b", "c", "d"]);
    let mut b = state_with_branches(&["a", "b", "c", "d"]);
    select_range(&mut a, 1, 2);
    select_range(&mut b, 2, 1);
    assert_eq!(a.selected_branches.to_vec(), strings(&["b", "c"]));
    assert_eq!(b.selected_branches.to_vec(), strings(&["b", "c"]));
    select_range(&mut a, 3, 9);
    assert_eq!(a.selected_branches.to_vec(), strings(&["b", "c", "d"]));
}

#[test]
fn typing_in_search_moves_the_cursor_to_the_top_and_backspace_deletes() {
    let mut state = state_with_branches(&["ab", "ac", "b"]);
    state.branch_cursor = 2;
    press(&mut state, KeyCode::Char('/'));
    press(&mut state, KeyCode::Char('a'));
    press(&mut state, KeyCode::Char('b'));
    assert_eq!(state.branch_cursor, 0);
    assert_eq!(visible_branches(&state).len(), 1);
    press(&mut state, KeyCode::Backspace);
    assert_eq!(state.branch_filter, "a");
    assert_eq!(visible_branches(&state).len(), 2);
}

#[test]
fn split_remote_splits_at_the_first_slash_or_defaults_to_origin() {
    assert_eq!(split_remote("origin/a/b"), ("origin".to_string(), "a/b".to_string()));
    assert_eq!(split_remote("plain"), ("origin".to_string(), "plain".to_string()));
}

#[test]
fn spinner_frames_cycle_every_ten_steps() {
    assert_eq!(spinner_frame(0), "\u{280b}");
    assert_eq!(spinner_frame(3), "\u{2838}");
    assert_eq!(spinner_frame(10), spinner_frame(0));
}

#[test]
fn confirm_prompts_name_what_will_be_deleted() {
    assert!(confirm_prompt(&PendingDelete::Local("x".to_string())).contains("x"));
    assert!(confirm_prompt(&PendingDelete::Bulk(strings(&["a", "b"]))).contains("2"));
}

#[test]
fn the_filter_ignores_case() {
    let mut state = state_with_branches(&["Feature-X", "bugfix-y"]);
    state.branch_filter = "fEA".to_string();
    let visible = visible_branches(&state);
    assert_eq!(visible.len(), 1);
    assert_eq!(visible[0].name, "Feature-X");
}

#[test]
fn is_shown_matches_the_lowered_filter_and_hides_picked_branches() {
    assert!(is_shown("feature-x", "fea", false, false));
    assert!(!is_shown("feature-x", "bug", false, false));
    assert!(is_shown("feature-x", "", false, false));
    assert!(!is_shown("feature-x", "fea", false, true));
    assert!(is_shown("feature-x", "fea", true, true));
}
