use vstd::prelude::*;
use crate::app::{AppState, ExecutionOutcome, Flow, PauseReason, Screen, Step};
use crate::git::{cherry_empty_shas, commit_from_line, failure_text, field_sep, op_args, GitOp, GitReply};
use crate::text::{has_char, is_prefix, is_suffix, is_subsequence, lowercase, split_once, trim};
use crate::sets::strictly_increasing;
use crate::ui::branch_list::{delete_confirm_key, range_names, is_stale_remote, remote_parts, without_name};
use crate::ui::conflict_pause::{aborted, conflict_key, reason_of};
use crate::ui::execution::with_outcome;
use crate::ui::run::resume_spec;
use crate::git::{branch_from_line, branches_of_lines, stable_newest_first, with_epoch, epoch_is, BranchView};
use crate::keys::{KeyCode, KeyModifiers};
use crate::ui::branch_list::{cursor_ok, list_key, search_key, shown, shown_lowered, visible, visible_upto, cursor_down, cursor_up};
use crate::ui::commit_list::{commit_cursor_ok, commit_key};

verus! {

/// Every key on the branch list keeps the cursor on a shown branch (or at
/// 0 when none is shown).
pub proof fn law_branch_keys_keep_cursor(
    o: AppState,
    key: KeyCode,
    m: KeyModifiers,
    n: AppState,
    step: Step,
)
    requires
        cursor_ok(o),
        o.search_active ==> search_key(o, key, n),
        !o.search_active ==> list_key(o, key, m, n, step),
    ensures
        cursor_ok(n),
{
    if !o.search_active {
        assert(visible(n) == visible(o) || n.branch_cursor == 0);
    }
}

proof fn lemma_visible_upto_hides_picked(
    bs: Seq<crate::git::Branch>,
    filter: Seq<char>,
    picked: Set<Seq<char>>,
    k: int,
    i: int,
)
    requires
        0 <= i < visible_upto(bs, filter, false, picked, k).len(),
        k <= bs.len(),
    ensures
        0 <= visible_upto(bs, filter, false, picked, k)[i] < k,
        shown(bs[visible_upto(bs, filter, false, picked, k)[i]], filter, false, picked),
    decreases k,
{
    if k > 0 {
        let r = visible_upto(bs, filter, false, picked, k - 1);
        if i < r.len() {
            lemma_visible_upto_hides_picked(bs, filter, picked, k - 1, i);
        }
    }
}

/// A branch with nothing left to pick is never shown unless all branches
/// are shown.
pub proof fn law_fully_picked_hidden(s: AppState, i: int)
    requires
        !s.show_all_branches,
        0 <= i < visible(s).len(),
    ensures
        !s.fully_picked@.contains(s.branches@[visible(s)[i]].name@),
{
    lemma_visible_upto_hides_picked(
        s.branches@,
        s.branch_filter@,
        s.fully_picked@,
        s.branches@.len() as int,
        i,
    );
}

/// Toggling the same commit twice leaves the selection as it was.
pub proof fn law_commit_toggle_twice(o: AppState, m: AppState, n: AppState)
    requires
        commit_key(o, KeyCode::Char(' '), m),
        commit_key(m, KeyCode::Char(' '), n),
    ensures
        n.selected@ == o.selected@,
{
    let c = o.commit_cursor;
    if o.selected@.contains(c) {
        assert(n.selected@ =~= o.selected@);
    } else {
        assert(n.selected@ =~= o.selected@);
    }
}

/// Typing a character into the search field and deleting it again leaves
/// the filter as it was.
pub proof fn law_type_then_backspace(o: AppState, c: char, m: AppState, n: AppState)
    requires
        search_key(o, KeyCode::Char(c), m),
        search_key(m, KeyCode::Backspace, n),
    ensures
        n.branch_filter@ == o.branch_filter@,
{
    assert(o.branch_filter@.push(c).drop_last() =~= o.branch_filter@);
}

proof fn lemma_branches_of_lines_excludes(ls: Seq<Seq<char>>, current: Seq<char>, k: int)
    requires
        0 <= k < branches_of_lines(ls, current).len(),
    ensures
        branches_of_lines(ls, current)[k].0 != current,
        !crate::text::is_suffix("/HEAD"@, branches_of_lines(ls, current)[k].0),
    decreases ls.len(),
{
    if ls.len() > 0 {
        let rest = branches_of_lines(ls.drop_last(), current);
        if k < rest.len() {
            lemma_branches_of_lines_excludes(ls.drop_last(), current, k);
        }
    }
}

/// The stable newest-first order keeps exactly the listed branches: each
/// one it holds is one of the input.
pub proof fn law_sorted_branches_come_from_input(out: Seq<BranchView>, inp: Seq<BranchView>, i: int)
    requires
        stable_newest_first(out, inp),
        0 <= i < out.len(),
    ensures
        inp.contains(out[i]),
{
    let e = out[i].1;
    let f = epoch_is(e);
    assert(f(out[i]));
    out.lemma_filter_contains(f, i);
    assert(with_epoch(out, e) == with_epoch(inp, e));
    assert(with_epoch(out, e) == out.filter(f));
    assert(with_epoch(inp, e).contains(out[i]));
    inp.lemma_filter_contains_rev(f, out[i]);
}

/// The branch list never holds the current branch or a `*/HEAD` alias.
pub proof fn law_branch_list_excludes_current(
    out: Seq<BranchView>,
    ls: Seq<Seq<char>>,
    current: Seq<char>,
    i: int,
)
    requires
        stable_newest_first(out, branches_of_lines(ls, current)),
        0 <= i < out.len(),
    ensures
        out[i].0 != current,
        !crate::text::is_suffix("/HEAD"@, out[i].0),
{
    law_sorted_branches_come_from_input(out, branches_of_lines(ls, current), i);
    let inp = branches_of_lines(ls, current);
    let k = choose|k: int| 0 <= k < inp.len() && inp[k] == out[i];
    lemma_branches_of_lines_excludes(ls, current, k);
}

/// Giving up on a paused commit unselects exactly the commits already
/// applied before it, so a retry does not pick them twice, and the paused
/// commit itself (never applied) stays selected.
pub proof fn law_abort_unselects_only_applied_commits(o: AppState, n: AppState)
    requires
        aborted(o, n),
        strictly_increasing(o.execution_queue@),
        o.execution_index < o.execution_queue@.len(),
    ensures
        forall|k: int| 0 <= k < o.execution_index ==> !n.selected@.contains(#[trigger] o.execution_queue@[k]),
        n.selected@.contains(o.execution_queue@[o.execution_index as int]) == o.selected@.contains(
            o.execution_queue@[o.execution_index as int],
        ),
{
    let q = o.execution_queue@;
    let i = o.execution_index as int;
    let applied = q.take(i);
    assert forall|k: int| 0 <= k < i implies !n.selected@.contains(#[trigger] q[k]) by {
        assert(applied[k] == q[k]);
        assert(applied.contains(q[k]));
    }
    if applied.to_set().contains(q[i]) {
        let k = choose|k: int| 0 <= k < applied.len() && applied[k] == q[i];
        assert(q[k] < q[i]);
    }
}

/// Continuing a resolved conflict, when git accepts both the continue and
/// the re-authoring amend, completes the paused commit: its result is done,
/// the pause is cleared and execution resumes at the next commit.
pub proof fn law_continue_completes_the_paused_commit(
    o: AppState,
    m: AppState,
    s1: Step,
    r1: GitReply,
    p: AppState,
    s2: Step,
    f2: Flow,
    r2: GitReply,
    n: AppState,
    s3: Step,
)
    requires
        reason_of(o) == PauseReason::CherryPickConflict,
        o.execution_index < o.execution_queue@.len(),
        conflict_key(o, KeyCode::Char('c'), m, s1),
        r1 matches GitReply::Exited { success: true, .. },
        resume_spec(m, Flow::Continue, r1, p, s2),
        s2 matches Step::Run(_, fl) && fl == f2,
        r2 matches GitReply::Exited { success: true, .. },
        resume_spec(p, f2, r2, n, s3),
    ensures
        s1 matches Step::Run(GitOp::CherryPickContinue, Flow::Continue),
        n.execution_index == o.execution_index + 1,
        n.execution_results@ == with_outcome(
            o.execution_results@,
            o.execution_index as int,
            ExecutionOutcome::Done,
        ),
        n.screen == Screen::Execution,
        n.conflict_message is None,
        n.pause_reason is None,
        n.selected == o.selected,
        n.commits == o.commits,
        s3 is Done,
{
    assert(o.execution_queue.len() == o.execution_queue@.len());
}

/// Deleting a remote branch that the remote no longer has ends like a
/// successful delete: once the stale tracking ref is pruned, the branch is
/// gone from the list, the prompt is closed and no error is shown.
pub proof fn law_stale_remote_delete_ends_without_error(
    o: AppState,
    name: String,
    r1: GitReply,
    m: AppState,
    s1: Step,
    f2: Flow,
    r2: GitReply,
    n: AppState,
    s2: Step,
)
    requires
        resume_spec(o, Flow::DeleteRemote(name), r1, m, s1),
        failure_text(r1) matches Some(msg) && is_stale_remote(msg),
        s1 matches Step::Run(_, fl) && fl == f2,
        resume_spec(m, f2, r2, n, s2),
    ensures
        s1 matches Step::Run(GitOp::PruneRemoteTrackingRef(x), Flow::PruneStale(_)) && x@ == name@,
        n.last_error is None,
        n.pending_delete is None,
        n.branches@ == without_name(o.branches@, name@),
        forall|k: int| 0 <= k < n.branches@.len() ==> (#[trigger] n.branches@[k]).name@ != name@,
        s2 is Done,
{
    let pred = |b: crate::git::Branch| b.name@ != name@;
    assert forall|k: int| 0 <= k < n.branches@.len() implies (#[trigger] n.branches@[k]).name@ != name@ by {
        o.branches@.lemma_filter_pred(pred, k);
    }
}

/// A remote-tracking branch is never force-deleted locally: Delete on a
/// hovered remote branch, confirmed with `y`, deletes the branch on its
/// remote (`git push <remote> --delete <branch>`).
pub proof fn law_remote_branches_are_deleted_on_the_remote(
    o: AppState,
    s1: Step,
    m: AppState,
    n: AppState,
    r: crate::app::KeyOutcome,
)
    requires
        !o.search_active,
        o.selected_branches@ == Set::<Seq<char>>::empty(),
        o.branch_cursor < visible(o).len(),
        !o.branches@[visible(o)[o.branch_cursor as int]].is_local,
        list_key(o, KeyCode::Delete, KeyModifiers { shift: false, control: false }, m, s1),
        delete_confirm_key(m, KeyCode::Char('y'), n, r),
    ensures
        r matches crate::app::KeyOutcome::Consumed(Step::Run(GitOp::DeleteRemoteBranch(rm, br), Flow::DeleteRemote(y)))
            && (rm@, br@) == remote_parts(o.branches@[visible(o)[o.branch_cursor as int]].name@)
            && y@ == o.branches@[visible(o)[o.branch_cursor as int]].name@,
{
}

/// Every key on the commit list keeps the cursor on a listed commit (or
/// at 0 when there is none).
pub proof fn law_commit_keys_keep_cursor(o: AppState, key: KeyCode, n: AppState)
    requires
        commit_cursor_ok(o),
        commit_key(o, key, n),
    ensures
        commit_cursor_ok(n),
{
}

/// A range selection adds the same names whichever end it starts from:
/// the shown branches between both ends, inclusive.
pub proof fn law_range_either_order(s: AppState, a: int, b: int)
    ensures
        range_names(s, a, b) == range_names(s, b, a),
{
    assert(range_names(s, a, b) =~= range_names(s, b, a));
}

/// The listing of a branch's commits asks `git log` for them oldest first
/// (`--reverse`), over the range from the base to the branch, so the list,
/// and a queue taken in list order, follows commit order.
pub proof fn law_commit_listing_is_oldest_first(base: String, branch: String)
    ensures
        op_args(GitOp::ListCommits(base, branch))[0] == "log"@,
        op_args(GitOp::ListCommits(base, branch)).contains("--reverse"@),
        op_args(GitOp::ListCommits(base, branch)).last() == base@ + ".."@ + branch@,
{
    assert(op_args(GitOp::ListCommits(base, branch))[1] == "--reverse"@);
}

/// The ref listing covers both the local branches (`refs/heads`) and the
/// remote-tracking ones (`refs/remotes`).
pub proof fn law_ref_listing_covers_local_and_remote_branches()
    ensures
        op_args(GitOp::ListRefs)[0] == "for-each-ref"@,
        op_args(GitOp::ListRefs).contains("refs/heads"@),
        op_args(GitOp::ListRefs).contains("refs/remotes"@),
{
    assert(op_args(GitOp::ListRefs)[2] == "refs/heads"@);
    assert(op_args(GitOp::ListRefs)[3] == "refs/remotes"@);
}

/// Checking a candidate base verifies that very candidate: the command is
/// `rev-parse --verify` and its last argument is the candidate.
pub proof fn law_base_check_verifies_the_candidate(candidate: String)
    ensures
        op_args(GitOp::VerifyRef(candidate))[0] == "rev-parse"@,
        op_args(GitOp::VerifyRef(candidate)).contains("--verify"@),
        op_args(GitOp::VerifyRef(candidate)).last() == candidate@,
{
    assert(op_args(GitOp::VerifyRef(candidate))[1] == "--verify"@);
}

/// Whether a branch is shown never skips the search: a shown branch always
/// matches the filter, and showing all branches only lifts the hiding of
/// fully picked ones.
pub proof fn law_show_all_keeps_the_filter(lower_name: Seq<char>, lower_filter: Seq<char>, show_all: bool, picked: bool)
    ensures
        shown_lowered(lower_name, lower_filter, show_all, picked) ==> is_subsequence(lower_filter, lower_name),
        shown_lowered(lower_name, lower_filter, true, picked) == is_subsequence(lower_filter, lower_name),
        picked ==> (shown_lowered(lower_name, lower_filter, show_all, picked) == (show_all && is_subsequence(
            lower_filter,
            lower_name,
        ))),
{
}

proof fn lemma_visible_upto_shown(
    bs: Seq<crate::git::Branch>,
    filter: Seq<char>,
    show_all: bool,
    picked: Set<Seq<char>>,
    k: int,
    i: int,
)
    requires
        0 <= i < visible_upto(bs, filter, show_all, picked, k).len(),
        k <= bs.len(),
    ensures
        0 <= visible_upto(bs, filter, show_all, picked, k)[i] < k,
        shown(bs[visible_upto(bs, filter, show_all, picked, k)[i]], filter, show_all, picked),
    decreases k,
{
    if k > 0 {
        let r = visible_upto(bs, filter, show_all, picked, k - 1);
        if i < r.len() {
            lemma_visible_upto_shown(bs, filter, show_all, picked, k - 1, i);
        }
    }
}

/// Every branch the list shows matches the search, case-insensitively and
/// fuzzily, whether or not all branches are shown.
pub proof fn law_shown_branches_match_the_filter(s: AppState, i: int)
    requires
        0 <= i < visible(s).len(),
    ensures
        is_subsequence(lowercase(s.branch_filter@), lowercase(s.branches@[visible(s)[i]].name@)),
{
    lemma_visible_upto_shown(
        s.branches@,
        s.branch_filter@,
        s.show_all_branches,
        s.fully_picked@,
        s.branches@.len() as int,
        i,
    );
}

proof fn lemma_split_joined(a: Seq<char>, c: char, b: Seq<char>)
    requires
        !has_char(a, c),
    ensures
        split_once(a + seq![c] + b, c) == Some((a, b)),
{
    let s = a + seq![c] + b;
    assert(s[a.len() as int] == c);
    assert forall|j: int| 0 <= j < a.len() implies s[j] != c by {
        assert(s[j] == a[j]);
        if a[j] == c {
            assert(has_char(a, c));
        }
    }
    assert(crate::text::is_first(s, c, a.len() as int));
    assert(has_char(s, c));
    crate::text::lemma_first_unique(s, c, a.len() as int);
    assert(s.subrange(0, a.len() as int) =~= a);
    assert(s.subrange(a.len() as int + 1, s.len() as int) =~= b);
}

/// A `git log` line of five fields separated by U+001F parses into a commit
/// whose SHA, short SHA, subject, author and date are those five fields, in
/// that order (the date, used for the re-authoring amend, is the fifth).
pub proof fn law_commit_line_fields(
    sha: Seq<char>,
    short: Seq<char>,
    msg: Seq<char>,
    author: Seq<char>,
    date: Seq<char>,
)
    requires
        !has_char(sha, field_sep()),
        !has_char(short, field_sep()),
        !has_char(msg, field_sep()),
        !has_char(author, field_sep()),
        !has_char(date, field_sep()),
    ensures
        commit_from_line(
            sha + seq![field_sep()] + short + seq![field_sep()] + msg + seq![field_sep()] + author + seq![
                field_sep(),
            ] + date,
        ) == Some((sha, short, msg, author, date)),
{
    let sep = field_sep();
    let r3 = author + seq![sep] + date;
    let r2 = msg + seq![sep] + r3;
    let r1 = short + seq![sep] + r2;
    let line = sha + seq![sep] + r1;
    assert(sha + seq![sep] + short + seq![sep] + msg + seq![sep] + author + seq![sep] + date =~= line);
    lemma_split_joined(sha, sep, r1);
    lemma_split_joined(short, sep, r2);
    lemma_split_joined(msg, sep, r3);
    lemma_split_joined(author, sep, date);
}

/// A `for-each-ref` line `full|name|epoch|relative` (the first three
/// without `|`) gives the branch `name`, with `relative` as its date text,
/// local exactly when `full` is under `refs/heads/`, and dated `epoch`
/// (0 when it is not a number); the current branch and `*/HEAD` aliases
/// give nothing.
pub proof fn law_ref_line_fields(
    full: Seq<char>,
    name: Seq<char>,
    epoch: Seq<char>,
    relative: Seq<char>,
    current: Seq<char>,
)
    requires
        !has_char(full, '|'),
        !has_char(name, '|'),
        !has_char(epoch, '|'),
    ensures
        ({
            let r = branch_from_line(full + seq!['|'] + name + seq!['|'] + epoch + seq!['|'] + relative, current);
            if name == current || is_suffix("/HEAD"@, name) {
                r is None
            } else {
                &&& r matches Some(b)
                &&& b.0 == name
                &&& b.2 == relative
                &&& b.3 == is_prefix("refs/heads/"@, full)
                &&& crate::text::parse_i64_spec(epoch) is None ==> b.1 == 0
                &&& crate::text::parse_i64_spec(epoch) matches Some(x) ==> b.1 == x as i64
            }
        }),
{
    let r2 = epoch + seq!['|'] + relative;
    let r1 = name + seq!['|'] + r2;
    let line = full + seq!['|'] + r1;
    assert(full + seq!['|'] + name + seq!['|'] + epoch + seq!['|'] + relative =~= line);
    lemma_split_joined(full, '|', r1);
    lemma_split_joined(name, '|', r2);
    lemma_split_joined(epoch, '|', relative);
}

/// A `git cherry` line `- <sha>` marks `<sha>` (trimmed) as an empty pick;
/// a `+ <sha>` line marks nothing.
pub proof fn law_cherry_lines(ls: Seq<Seq<char>>, sha: Seq<char>)
    ensures
        cherry_empty_shas(ls.push(seq!['-', ' '] + sha)).contains(trim(sha)),
        cherry_empty_shas(ls.push(seq!['+', ' '] + sha)) == cherry_empty_shas(ls),
{
    assert(!has_char(seq!['-'], ' '));
    assert(!has_char(seq!['+'], ' '));
    lemma_split_joined(seq!['-'], ' ', sha);
    lemma_split_joined(seq!['+'], ' ', sha);
    assert(seq!['-'] + seq![' '] + sha =~= seq!['-', ' '] + sha);
    assert(seq!['+'] + seq![' '] + sha =~= seq!['+', ' '] + sha);
    assert(ls.push(seq!['-', ' '] + sha).drop_last() =~= ls);
    assert(ls.push(seq!['+', ' '] + sha).drop_last() =~= ls);
    reveal_strlit("-");
    assert(seq!['-'] =~= "-"@);
    assert(seq!['+'] != "-"@) by {
        assert(seq!['+'][0] != "-"@[0]);
    }
}

/// The git commands that act on a named thing act on that very thing, in
/// the way their name says.
pub proof fn law_command_targets(x: String, y: String)
    ensures
        op_args(GitOp::DeleteBranch(x)) =~= seq!["branch"@, "-D"@, x@],
        op_args(GitOp::DeleteRemoteBranch(x, y))[0] == "push"@ && op_args(GitOp::DeleteRemoteBranch(x, y))[1] == x@
            && op_args(GitOp::DeleteRemoteBranch(x, y)).contains("--delete"@)
            && op_args(GitOp::DeleteRemoteBranch(x, y)).last() == y@,
        op_args(GitOp::PruneRemoteTrackingRef(x)).last() == "refs/remotes/"@ + x@,
        op_args(GitOp::RemoveWorktree(x)) =~= seq!["worktree"@, "remove"@, x@],
        op_args(GitOp::PushToMaster(x)) =~= seq!["push"@, "origin"@, x@ + ":master"@],
        op_args(GitOp::CommitsAheadOfRemoteMaster(x)).last() == "origin/master.."@ + x@,
        op_args(GitOp::ShowCommit(x)).last() == x@,
        op_args(GitOp::Cherry(x, y)).last() == y@,
        op_args(GitOp::Cherry(x, y))[op_args(GitOp::Cherry(x, y)).len() - 2] == x@,
        op_args(GitOp::CherryPick(x)) =~= seq!["cherry-pick"@, x@],
        op_args(GitOp::AmendReauthor(x)).contains("--amend"@),
        op_args(GitOp::AmendReauthor(x)).contains("--reset-author"@),
        op_args(GitOp::AmendReauthor(x)).contains("-s"@),
        op_args(GitOp::AmendReauthor(x)).last() == "--date="@ + x@,
{
    assert(op_args(GitOp::DeleteRemoteBranch(x, y))[2] == "--delete"@);
    assert(op_args(GitOp::AmendReauthor(x))[1] == "--amend"@);
    assert(op_args(GitOp::AmendReauthor(x))[3] == "--reset-author"@);
    assert(op_args(GitOp::AmendReauthor(x))[4] == "-s"@);
}

} // verus!
