use gpick::git::{
    cherry_needed, drop_empty_picks,
    amend_reauthor, check_is_repo, cherry_pick, cherry_pick_abort, cherry_pick_continue, command_result,
    commit_allow_empty, delete_branch, delete_remote_branch, fetch_all, outcome_text,
    prune_remote_tracking_ref, push_to_master, remove_worktree, reset_hard_head_minus_one, show_commit,
    status_summary, commits_ahead_of_remote_master, detect_base,
    empty_pick_shas, fully_picked_branches, is_empty_cherry_pick_message, is_fully_picked, list_branches,
    list_commits, Branch, CherryPickOutcome, Commit, GitError, GitOp, GitReply,
};

fn ok(s: &str) -> Result<String, GitError> {
    Ok(s.to_string())
}

fn exited(success: bool, stdout: &str, stderr: &str) -> GitReply {
    GitReply::Exited { success, stdout: stdout.to_string(), stderr: stderr.to_string() }
}

#[test]
fn is_empty_cherry_pick_message_recognizes_gits_wording() {
    assert!(is_empty_cherry_pick_message(
        "The previous cherry-pick is now empty, possibly due to conflict resolution."
    ));
    assert!(!is_empty_cherry_pick_message("CONFLICT (content): Merge conflict in a.txt"));
}

#[test]
fn is_empty_cherry_pick_message_recognizes_the_allow_empty_hint() {
    assert!(is_empty_cherry_pick_message("use 'git commit --allow-empty' to allow an empty commit"));
}

#[test]
fn check_is_repo_errs_for_non_repo() {
    let answer = Err(GitError::CommandFailed(
        "fatal: not a git repository (or any of the parent directories): .git".to_string(),
    ));
    assert!(matches!(check_is_repo(&answer), Err(GitError::NotAGitRepo)));
}

#[test]
fn check_is_repo_ok_only_for_true() {
    assert!(check_is_repo(&ok("true")).is_ok());
    assert!(matches!(check_is_repo(&ok("false")), Err(GitError::NotAGitRepo)));
}

#[test]
fn command_result_trims_stdout_and_reports_stderr() {
    assert_eq!(command_result(&exited(true, "  true\n", "")).unwrap(), "true");
    match command_result(&exited(false, "", "fatal: bad revision 'x'\n")) {
        Err(GitError::CommandFailed(m)) => assert_eq!(m, "fatal: bad revision 'x'"),
        other => panic!("unexpected {other:?}"),
    }
    match command_result(&GitReply::SpawnFailed("No such file or directory (os error 2)".to_string())) {
        Err(GitError::CommandFailed(m)) => assert_eq!(m, "No such file or directory (os error 2)"),
        other => panic!("unexpected {other:?}"),
    }
}

#[test]
fn cherry_pick_tells_conflicts_from_spawn_errors() {
    assert!(matches!(cherry_pick(&exited(true, "", "")), Ok(CherryPickOutcome::Success)));
    match cherry_pick(&exited(false, "", "error: could not apply abc\n")) {
        Ok(CherryPickOutcome::Conflict(m)) => assert_eq!(m, "error: could not apply abc"),
        other => panic!("unexpected {other:?}"),
    }
    assert!(matches!(cherry_pick(&GitReply::SpawnFailed("boom".into())), Err(GitError::CommandFailed(_))));
}

#[test]
fn cherry_pick_continue_reports_a_remaining_conflict() {
    match cherry_pick_continue(&exited(false, "", "  error: commit is not possible\n")) {
        Ok(CherryPickOutcome::Conflict(m)) => assert_eq!(m, "error: commit is not possible"),
        other => panic!("unexpected {other:?}"),
    }
    assert!(matches!(cherry_pick_continue(&exited(true, "x", "")), Ok(CherryPickOutcome::Success)));
}

#[test]
fn commands_whose_output_is_not_needed_pass_on_success_and_errors() {
    let fns: [fn(&Result<String, GitError>) -> Result<(), GitError>; 10] = [
        fetch_all,
        delete_branch,
        delete_remote_branch,
        prune_remote_tracking_ref,
        remove_worktree,
        push_to_master,
        cherry_pick_abort,
        commit_allow_empty,
        amend_reauthor,
        reset_hard_head_minus_one,
    ];
    for f in fns {
        assert!(f(&ok("anything")).is_ok());
        match f(&Err(GitError::CommandFailed("refused".into()))) {
            Err(GitError::CommandFailed(m)) => assert_eq!(m, "refused"),
            other => panic!("unexpected {other:?}"),
        }
    }
}

#[test]
fn outcome_text_gives_the_error_s_display_text() {
    assert_eq!(outcome_text(Ok(())), Ok(()));
    assert_eq!(outcome_text(Err(GitError::CommandFailed("x".into()))), Err("git command failed: x".to_string()));
}

#[test]
fn show_commit_and_status_summary_pass_the_output_on() {
    assert_eq!(show_commit(&ok("diff --git a b")).unwrap(), "diff --git a b");
    assert_eq!(status_summary(&ok("UU a.txt")).unwrap(), "UU a.txt");
    assert!(matches!(status_summary(&Err(GitError::NotAGitRepo)), Err(GitError::NotAGitRepo)));
}

#[test]
fn error_messages_match_their_display_text() {
    assert_eq!(GitError::NotAGitRepo.message(), "not a git repository");
    assert_eq!(GitError::CommandFailed("x".into()).message(), "git command failed: x");
    assert_eq!(GitError::NoBaseFound.message(), "could not resolve a base branch");
}

#[test]
fn git_op_arguments() {
    assert_eq!(GitOp::DeleteBranch("feat".into()).args(), vec!["branch", "-D", "feat"]);
    assert_eq!(GitOp::PushToMaster("HEAD".into()).args(), vec!["push", "origin", "HEAD:master"]);
    assert_eq!(
        GitOp::CommitsAheadOfRemoteMaster("main".into()).args(),
        vec!["rev-list", "--count", "--end-of-options", "origin/master..main"]
    );
    assert_eq!(
        GitOp::PruneRemoteTrackingRef("origin/ghost".into()).args(),
        vec!["update-ref", "-d", "refs/remotes/origin/ghost"]
    );
    assert_eq!(
        GitOp::AmendReauthor("Mon, 1 Jan 2024 00:00:00 +0000".into()).args(),
        vec!["commit", "--amend", "--allow-empty", "--reset-author", "-s", "--no-edit", "--date=Mon, 1 Jan 2024 00:00:00 +0000"]
    );
    assert_eq!(
        GitOp::ListCommits("base".into(), "feature".into()).args()[4],
        "base..feature"
    );
    assert_eq!(GitOp::Cherry("b".into(), "f".into()).args(), vec!["cherry", "--end-of-options", "b", "f"]);
}

#[test]
fn list_branches_excludes_current_and_sorts_by_recency() {
    let raw = "refs/heads/old|old|100|3 days ago\n\
               refs/heads/main|main|300|now\n\
               refs/remotes/origin/HEAD|origin/HEAD|300|now\n\
               refs/remotes/origin/feature|origin/feature|200|1 day ago\n\
               refs/heads/feature|feature|200|1 day ago\n\
               broken line";
    let branches = list_branches(&ok("main"), &ok(raw)).unwrap();
    let names: Vec<&str> = branches.iter().map(|b| b.name.as_str()).collect();
    // equal epochs keep their order; newest first otherwise
    assert_eq!(names, vec!["origin/feature", "feature", "old"]);
    assert!(!branches[0].is_local);
    assert!(branches[1].is_local);
    assert_eq!(branches[2].last_commit_relative, "3 days ago");
    assert_eq!(branches[2].last_commit_epoch, 100);
}

#[test]
fn list_branches_counts_an_unparsable_epoch_as_zero_and_keeps_extra_bars() {
    let raw = "refs/heads/a|a|soon|x|y";
    let branches = list_branches(&Err(GitError::NoBaseFound), &ok(raw)).unwrap();
    assert_eq!(branches.len(), 1);
    assert_eq!(branches[0].last_commit_epoch, 0);
    assert_eq!(branches[0].last_commit_relative, "x|y");
}

#[test]
fn list_branches_passes_a_listing_error_through() {
    let err = list_branches(&ok("main"), &Err(GitError::CommandFailed("boom".into())));
    assert!(matches!(err, Err(GitError::CommandFailed(_))));
}

#[test]
fn list_commits_returns_oldest_first_with_fields() {
    let raw = "aaa\u{1f}a1\u{1f}b.txt\u{1f}Test\u{1f}Mon, 1 Jan 2024 00:00:00 +0000\n\
               bbb\u{1f}b1\u{1f}c.txt\u{1f}Test\u{1f}Tue, 2 Jan 2024 00:00:00 +0000\n\
               too\u{1f}few";
    let commits = list_commits(&ok(raw)).unwrap();
    assert_eq!(commits.len(), 2);
    assert_eq!(commits[0].message, "b.txt");
    assert_eq!(commits[1].message, "c.txt");
    assert_eq!(commits[0].short_sha, "a1");
    assert_eq!(commits[0].author, "Test");
    assert!(list_commits(&ok("")).unwrap().is_empty());
}

#[test]
fn empty_pick_shas_flags_a_commit_already_equivalent_on_base() {
    let set = empty_pick_shas(&ok("- abc \n+ def\n- 123")).unwrap();
    assert!(set.contains("abc"));
    assert!(set.contains("123"));
    assert!(!set.contains("def"));
}

#[test]
fn commits_ahead_parses_the_count_or_reports_the_output() {
    assert_eq!(commits_ahead_of_remote_master(&ok("2")).unwrap(), 2);
    assert_eq!(commits_ahead_of_remote_master(&ok("+0")).unwrap(), 0);
    match commits_ahead_of_remote_master(&ok("two")) {
        Err(GitError::CommandFailed(m)) => assert_eq!(m, "unexpected rev-list output: two"),
        other => panic!("unexpected {other:?}"),
    }
    assert!(commits_ahead_of_remote_master(&ok("99999999999999999999999")).is_err());
}

#[test]
fn detect_base_uses_override_verbatim() {
    let base = detect_base(Some("some-ref"), &Err(GitError::NoBaseFound), false, false).unwrap();
    assert_eq!(base, "some-ref");
}

#[test]
fn detect_base_prefers_origin_head_then_main_then_master() {
    assert_eq!(detect_base(None, &ok("refs/remotes/origin/develop"), true, true).unwrap(), "origin/develop");
    assert_eq!(detect_base(None, &Err(GitError::NoBaseFound), true, true).unwrap(), "main");
    assert_eq!(detect_base(None, &ok("weird"), false, true).unwrap(), "master");
    assert!(matches!(detect_base(None, &Err(GitError::NoBaseFound), false, false), Err(GitError::NoBaseFound)));
}

fn commit(sha: &str) -> Commit {
    Commit {
        sha: sha.to_string(),
        short_sha: sha.to_string(),
        message: sha.to_string(),
        author: "Test".into(),
        date_rfc2822: "Mon, 1 Jan 2024 00:00:00 +0000".into(),
    }
}

#[test]
fn is_fully_picked_true_when_branch_has_no_commits_ahead() {
    assert!(is_fully_picked(&Ok(vec![]), &Err(GitError::NoBaseFound)).unwrap());
}

#[test]
fn is_fully_picked_false_when_some_commits_are_still_unique() {
    let empty = empty_pick_shas(&ok("- s1\n+ s2")).unwrap();
    assert!(!is_fully_picked(&Ok(vec![commit("s1"), commit("s2")]), &Ok(empty)).unwrap());
}

#[test]
fn is_fully_picked_true_when_every_commit_is_already_applied_on_base() {
    let empty = empty_pick_shas(&ok("- s1")).unwrap();
    assert!(is_fully_picked(&Ok(vec![commit("s1")]), &Ok(empty)).unwrap());
}

#[test]
fn is_fully_picked_passes_errors_through() {
    assert!(matches!(
        is_fully_picked(&Err(GitError::CommandFailed("log".into())), &Ok(empty_pick_shas(&ok("")).unwrap())),
        Err(GitError::CommandFailed(_))
    ));
    assert!(matches!(
        is_fully_picked(&Ok(vec![commit("s1")]), &Err(GitError::CommandFailed("cherry".into()))),
        Err(GitError::CommandFailed(_))
    ));
}

#[test]
fn fully_picked_branches_returns_only_the_fully_integrated_ones() {
    let branches = vec![
        Branch { name: "picked".into(), last_commit_epoch: 0, last_commit_relative: String::new(), is_local: true },
        Branch { name: "unpicked".into(), last_commit_epoch: 0, last_commit_relative: String::new(), is_local: true },
        Branch { name: "broken".into(), last_commit_epoch: 0, last_commit_relative: String::new(), is_local: true },
    ];
    let verdicts = vec![Ok(true), Ok(false), Err(GitError::NoBaseFound)];
    let result = fully_picked_branches(&branches, &verdicts);
    assert!(result.contains("picked"));
    assert!(!result.contains("unpicked"));
    assert!(!result.contains("broken"));
}

#[test]
fn detect_base_falls_back_to_main_when_no_origin_head() {
    let answer = Err(GitError::CommandFailed("fatal: ref refs/remotes/origin/HEAD is not a symbolic ref".into()));
    assert_eq!(detect_base(None, &answer, true, false).unwrap(), "main");
}

#[test]
fn detect_base_errs_when_nothing_resolves() {
    let answer = Err(GitError::CommandFailed(String::new()));
    assert!(matches!(detect_base(None, &answer, false, false), Err(GitError::NoBaseFound)));
}

#[test]
fn commits_ahead_of_remote_master_counts_unpushed_commits() {
    assert_eq!(commits_ahead_of_remote_master(&ok("0")).unwrap(), 0);
    assert_eq!(commits_ahead_of_remote_master(&ok("2")).unwrap(), 2);
}

#[test]
fn list_branches_marks_remote_tracking_refs_as_not_local() {
    let raw = "refs/heads/main|main|1|now\nrefs/remotes/origin/main|origin/main|1|now";
    let branches = list_branches(&ok("feature"), &ok(raw)).unwrap();
    let remote = branches.iter().find(|b| b.name.starts_with("origin/")).unwrap();
    assert!(!remote.is_local);
    let local = branches.iter().find(|b| b.name == "main").unwrap();
    assert!(local.is_local);
}

#[test]
fn cherry_pick_succeeds_on_clean_apply() {
    assert!(matches!(cherry_pick(&exited(true, "[main 1a2b3c] b.txt\n", "")), Ok(CherryPickOutcome::Success)));
}

#[test]
fn cherry_pick_reports_conflict_on_overlapping_change() {
    let reply = exited(false, "", "error: could not apply 1a2b3c... feature change\nCONFLICT (content): Merge conflict in a.txt\n");
    match cherry_pick(&reply) {
        Ok(CherryPickOutcome::Conflict(m)) => assert!(m.contains("CONFLICT")),
        other => panic!("unexpected {other:?}"),
    }
}

#[test]
fn drop_empty_picks_keeps_the_others_in_order() {
    let empty = empty_pick_shas(&ok("- s2")).unwrap();
    let kept = drop_empty_picks(&vec![commit("s1"), commit("s2"), commit("s3")], &empty);
    let shas: Vec<&str> = kept.iter().map(|c| c.sha.as_str()).collect();
    assert_eq!(shas, vec!["s1", "s3"]);
}

#[test]
fn git_cherry_is_needed_only_for_listed_commits() {
    assert!(cherry_needed(&Ok(vec![commit("s1")])));
    assert!(!cherry_needed(&Ok(vec![])));
    assert!(!cherry_needed(&Err(GitError::NoBaseFound)));
}
