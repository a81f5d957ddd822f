use vstd::prelude::*;
use vstd::string::*;
use crate::sets::{str_eq, NameSet};
use crate::text::{
    chars_of, contains_sub, is_prefix, lemma_first_exists, lines, lines_of, parse_i64,
    parse_i64_spec, parse_usize, parse_usize_spec, split_once, split_once_chars, str_contains,
    string_of, string_of_range, trim, trim_chars, trim_string, views,
};

verus! {

// ---------------------------------------------------------------------
// Data
// ---------------------------------------------------------------------

/// What can go wrong talking to git.
#[derive(Debug)]
pub enum GitError {
    NotAGitRepo,
    CommandFailed(String),
    NoBaseFound,
}

impl Clone for GitError {
    fn clone(&self) -> (r: Self)
        ensures
            r == *self,
    {
        match self {
            GitError::NotAGitRepo => GitError::NotAGitRepo,
            GitError::CommandFailed(s) => GitError::CommandFailed(s.clone()),
            GitError::NoBaseFound => GitError::NoBaseFound,
        }
    }
}

/// The text a `GitError` displays.
pub open spec fn error_text(e: GitError) -> Seq<char> {
    match e {
        GitError::NotAGitRepo => "not a git repository"@,
        GitError::CommandFailed(s) => "git command failed: "@ + s@,
        GitError::NoBaseFound => "could not resolve a base branch"@,
    }
}

impl GitError {
    /// The text this error displays.
    pub fn message(&self) -> (r: String)
        ensures
            r@ == error_text(*self),
    {
        match self {
            GitError::NotAGitRepo => String::from_str("not a git repository"),
            GitError::CommandFailed(s) => {
                let mut r = String::from_str("git command failed: ");
                r.append(s.as_str());
                r
            },
            GitError::NoBaseFound => String::from_str("could not resolve a base branch"),
        }
    }
}

/// A branch that can be picked from.
#[derive(Debug)]
pub struct Branch {
    pub name: String,
    pub last_commit_epoch: i64,
    /// Human-readable relative date of the branch's last commit (e.g. "3
    /// days ago"), straight from git's own `committerdate:relative`.
    pub last_commit_relative: String,
    pub is_local: bool,
}

/// The plain values of a branch.
pub type BranchView = (Seq<char>, i64, Seq<char>, bool);

impl View for Branch {
    type V = BranchView;

    open spec fn view(&self) -> BranchView {
        (self.name@, self.last_commit_epoch, self.last_commit_relative@, self.is_local)
    }
}

impl Clone for Branch {
    fn clone(&self) -> (r: Self)
        ensures
            r == *self,
    {
        Branch {
            name: self.name.clone(),
            last_commit_epoch: self.last_commit_epoch,
            last_commit_relative: self.last_commit_relative.clone(),
            is_local: self.is_local,
        }
    }
}

/// A commit ahead of the base.
#[derive(Debug)]
pub struct Commit {
    pub sha: String,
    pub short_sha: String,
    pub message: String,
    pub author: String,
    pub date_rfc2822: String,
}

/// The plain values of a commit.
pub type CommitView = (Seq<char>, Seq<char>, Seq<char>, Seq<char>, Seq<char>);

impl View for Commit {
    type V = CommitView;

    open spec fn view(&self) -> CommitView {
        (self.sha@, self.short_sha@, self.message@, self.author@, self.date_rfc2822@)
    }
}

impl Clone for Commit {
    fn clone(&self) -> (r: Self)
        ensures
            r == *self,
    {
        Commit {
            sha: self.sha.clone(),
            short_sha: self.short_sha.clone(),
            message: self.message.clone(),
            author: self.author.clone(),
            date_rfc2822: self.date_rfc2822.clone(),
        }
    }
}

/// How a cherry-pick ended.
#[derive(Debug)]
pub enum CherryPickOutcome {
    Success,
    Conflict(String),
}

/// What running git reported: its exit status and output, or why it could
/// not be started.
#[derive(Debug)]
pub enum GitReply {
    Exited { success: bool, stdout: String, stderr: String },
    SpawnFailed(String),
}

/// The result of a git command whose output is what matters: trimmed
/// stdout on success, trimmed stderr as the error otherwise.
pub open spec fn command_result_spec(reply: GitReply) -> Result<Seq<char>, Seq<char>> {
    match reply {
        GitReply::Exited { success, stdout, stderr } => if success {
            Ok(trim(stdout@))
        } else {
            Err(trim(stderr@))
        },
        GitReply::SpawnFailed(e) => Err(e@),
    }
}

/// The view of a git result: the text of the output, or the error.
pub open spec fn result_view(r: Result<String, GitError>) -> Result<Seq<char>, GitError> {
    match r {
        Ok(s) => Ok(s@),
        Err(e) => Err(e),
    }
}

/// What a git command gave: trimmed stdout when it succeeded, and a
/// `CommandFailed` with the trimmed stderr (or the spawn error) when not.
pub fn command_result(reply: &GitReply) -> (r: Result<String, GitError>)
    ensures
        match (r, command_result_spec(*reply)) {
            (Ok(s), Ok(t)) => s@ == t,
            (Err(GitError::CommandFailed(s)), Err(t)) => s@ == t,
            _ => false,
        },
{
    match reply {
        GitReply::Exited { success, stdout, stderr } => {
            if *success {
                Ok(trim_string(stdout.as_str()))
            } else {
                Err(GitError::CommandFailed(trim_string(stderr.as_str())))
            }
        },
        GitReply::SpawnFailed(e) => Err(GitError::CommandFailed(e.clone())),
    }
}

/// What a cherry-pick (or its continuation) gave: success, or a conflict
/// carrying git's trimmed stderr; an error only when git could not run.
pub open spec fn picked(reply: GitReply, r: Result<CherryPickOutcome, GitError>) -> bool {
    match reply {
        GitReply::Exited { success, stdout, stderr } => if success {
            r matches Ok(CherryPickOutcome::Success)
        } else {
            r matches Ok(CherryPickOutcome::Conflict(m)) && m@ == trim(stderr@)
        },
        GitReply::SpawnFailed(e) => r matches Err(GitError::CommandFailed(m)) && m@ == e@,
    }
}

fn cherry_pick_result(reply: &GitReply) -> (r: Result<CherryPickOutcome, GitError>)
    ensures
        picked(*reply, r),
{
    match reply {
        GitReply::Exited { success, stdout, stderr } => {
            if *success {
                Ok(CherryPickOutcome::Success)
            } else {
                Ok(CherryPickOutcome::Conflict(trim_string(stderr.as_str())))
            }
        },
        GitReply::SpawnFailed(e) => Err(GitError::CommandFailed(e.clone())),
    }
}

} // verus!

verus! {

// ---------------------------------------------------------------------
// The git commands gpick runs
// ---------------------------------------------------------------------

/// One git invocation, by purpose.
#[derive(Debug)]
pub enum GitOp {
    /// `rev-parse --is-inside-work-tree`
    IsInsideWorkTree,
    /// `fetch --prune --quiet`
    FetchAll,
    /// `rev-parse --abbrev-ref HEAD`
    CurrentBranch,
    /// `for-each-ref` over local and remote-tracking branches
    ListRefs,
    /// `branch -D <name>`
    DeleteBranch(String),
    /// `push <remote> --delete <branch>`
    DeleteRemoteBranch(String, String),
    /// `update-ref -d refs/remotes/<name>`
    PruneRemoteTrackingRef(String),
    /// `worktree remove <path>`
    RemoveWorktree(String),
    /// `push origin <base>:master`
    PushToMaster(String),
    /// `rev-list --count origin/master..<base>`
    CommitsAheadOfRemoteMaster(String),
    /// `symbolic-ref refs/remotes/origin/HEAD`
    OriginHead,
    /// `rev-parse --verify --quiet <candidate>`
    VerifyRef(String),
    /// `log --reverse` of `<base>..<branch>`
    ListCommits(String, String),
    /// `show <sha>`
    ShowCommit(String),
    /// `cherry <base> <branch>`
    Cherry(String, String),
    /// `cherry-pick <sha>`
    CherryPick(String),
    /// `cherry-pick --continue`
    CherryPickContinue,
    /// `cherry-pick --abort`
    CherryPickAbort,
    /// `commit --allow-empty --no-edit`
    CommitAllowEmpty,
    /// `commit --amend` re-authored, signed off, dated `<date>`
    AmendReauthor(String),
    /// `status --short`
    StatusShort,
    /// `reset --hard HEAD~1`
    ResetHardHeadMinusOne,
}

/// The fields of a commit in `git log` output are separated by U+001F.
pub open spec fn field_sep() -> char {
    '\u{1f}'
}

/// The arguments given to git for `op`.
pub open spec fn op_args(op: GitOp) -> Seq<Seq<char>> {
    match op {
        GitOp::IsInsideWorkTree => seq!["rev-parse"@, "--is-inside-work-tree"@],
        GitOp::FetchAll => seq!["fetch"@, "--prune"@, "--quiet"@],
        GitOp::CurrentBranch => seq!["rev-parse"@, "--abbrev-ref"@, "HEAD"@],
        GitOp::ListRefs => seq![
            "for-each-ref"@,
            "--format=%(refname)|%(refname:short)|%(committerdate:unix)|%(committerdate:relative)"@,
            "refs/heads"@,
            "refs/remotes"@,
        ],
        GitOp::DeleteBranch(name) => seq!["branch"@, "-D"@, name@],
        GitOp::DeleteRemoteBranch(remote, branch) => seq![
            "push"@,
            remote@,
            "--delete"@,
            branch@,
        ],
        GitOp::PruneRemoteTrackingRef(name) => seq![
            "update-ref"@,
            "-d"@,
            "refs/remotes/"@ + name@,
        ],
        GitOp::RemoveWorktree(path) => seq!["worktree"@, "remove"@, path@],
        GitOp::PushToMaster(base) => seq!["push"@, "origin"@, base@ + ":master"@],
        GitOp::CommitsAheadOfRemoteMaster(base) => seq![
            "rev-list"@,
            "--count"@,
            "--end-of-options"@,
            "origin/master.."@ + base@,
        ],
        GitOp::OriginHead => seq!["symbolic-ref"@, "refs/remotes/origin/HEAD"@],
        GitOp::VerifyRef(candidate) => seq![
            "rev-parse"@,
            "--verify"@,
            "--quiet"@,
            candidate@,
        ],
        GitOp::ListCommits(base, branch) => seq![
            "log"@,
            "--reverse"@,
            "--format=%H\u{1f}%h\u{1f}%s\u{1f}%an\u{1f}%aD"@,
            "--end-of-options"@,
            base@ + ".."@ + branch@,
        ],
        GitOp::ShowCommit(sha) => seq!["show"@, "--end-of-options"@, sha@],
        GitOp::Cherry(base, branch) => seq!["cherry"@, "--end-of-options"@, base@, branch@],
        GitOp::CherryPick(sha) => seq!["cherry-pick"@, sha@],
        GitOp::CherryPickContinue => seq!["cherry-pick"@, "--continue"@],
        GitOp::CherryPickAbort => seq!["cherry-pick"@, "--abort"@],
        GitOp::CommitAllowEmpty => seq!["commit"@, "--allow-empty"@, "--no-edit"@],
        GitOp::AmendReauthor(date) => seq![
            "commit"@,
            "--amend"@,
            "--allow-empty"@,
            "--reset-author"@,
            "-s"@,
            "--no-edit"@,
            "--date="@ + date@,
        ],
        GitOp::StatusShort => seq!["status"@, "--short"@],
        GitOp::ResetHardHeadMinusOne => seq!["reset"@, "--hard"@, "HEAD~1"@],
    }
}

fn lit(s: &str) -> (r: String)
    ensures
        r@ == s@,
{
    String::from_str(s)
}

fn concat2(a: &str, b: &str) -> (r: String)
    ensures
        r@ == a@ + b@,
{
    let mut r = String::from_str(a);
    r.append(b);
    r
}

impl GitOp {
    /// The arguments given to git for this operation.
    pub fn args(&self) -> (r: Vec<String>)
        ensures
            views(r@) == op_args(*self),
    {
        let mut v: Vec<String> = Vec::new();
        match self {
            GitOp::IsInsideWorkTree => {
                v.push(lit("rev-parse"));
                v.push(lit("--is-inside-work-tree"));
            },
            GitOp::FetchAll => {
                v.push(lit("fetch"));
                v.push(lit("--prune"));
                v.push(lit("--quiet"));
            },
            GitOp::CurrentBranch => {
                v.push(lit("rev-parse"));
                v.push(lit("--abbrev-ref"));
                v.push(lit("HEAD"));
            },
            GitOp::ListRefs => {
                v.push(lit("for-each-ref"));
                v.push(
                    lit(
                        "--format=%(refname)|%(refname:short)|%(committerdate:unix)|%(committerdate:relative)",
                    ),
                );
                v.push(lit("refs/heads"));
                v.push(lit("refs/remotes"));
            },
            GitOp::DeleteBranch(name) => {
                v.push(lit("branch"));
                v.push(lit("-D"));
                v.push(name.clone());
            },
            GitOp::DeleteRemoteBranch(remote, branch) => {
                v.push(lit("push"));
                v.push(remote.clone());
                v.push(lit("--delete"));
                v.push(branch.clone());
            },
            GitOp::PruneRemoteTrackingRef(name) => {
                v.push(lit("update-ref"));
                v.push(lit("-d"));
                v.push(concat2("refs/remotes/", name.as_str()));
            },
            GitOp::RemoveWorktree(path) => {
                v.push(lit("worktree"));
                v.push(lit("remove"));
                v.push(path.clone());
            },
            GitOp::PushToMaster(base) => {
                v.push(lit("push"));
                v.push(lit("origin"));
                v.push(concat2(base.as_str(), ":master"));
            },
            GitOp::CommitsAheadOfRemoteMaster(base) => {
                v.push(lit("rev-list"));
                v.push(lit("--count"));
                v.push(lit("--end-of-options"));
                v.push(concat2("origin/master..", base.as_str()));
            },
            GitOp::OriginHead => {
                v.push(lit("symbolic-ref"));
                v.push(lit("refs/remotes/origin/HEAD"));
            },
            GitOp::VerifyRef(candidate) => {
                v.push(lit("rev-parse"));
                v.push(lit("--verify"));
                v.push(lit("--quiet"));
                v.push(candidate.clone());
            },
            GitOp::ListCommits(base, branch) => {
                v.push(lit("log"));
                v.push(lit("--reverse"));
                v.push(lit("--format=%H\u{1f}%h\u{1f}%s\u{1f}%an\u{1f}%aD"));
                v.push(lit("--end-of-options"));
                let mut range = concat2(base.as_str(), "..");
                range.append(branch.as_str());
                v.push(range);
            },
            GitOp::ShowCommit(sha) => {
                v.push(lit("show"));
                v.push(lit("--end-of-options"));
                v.push(sha.clone());
            },
            GitOp::Cherry(base, branch) => {
                v.push(lit("cherry"));
                v.push(lit("--end-of-options"));
                v.push(base.clone());
                v.push(branch.clone());
            },
            GitOp::CherryPick(sha) => {
                v.push(lit("cherry-pick"));
                v.push(sha.clone());
            },
            GitOp::CherryPickContinue => {
                v.push(lit("cherry-pick"));
                v.push(lit("--continue"));
            },
            GitOp::CherryPickAbort => {
                v.push(lit("cherry-pick"));
                v.push(lit("--abort"));
            },
            GitOp::CommitAllowEmpty => {
                v.push(lit("commit"));
                v.push(lit("--allow-empty"));
                v.push(lit("--no-edit"));
            },
            GitOp::AmendReauthor(date) => {
                v.push(lit("commit"));
                v.push(lit("--amend"));
                v.push(lit("--allow-empty"));
                v.push(lit("--reset-author"));
                v.push(lit("-s"));
                v.push(lit("--no-edit"));
                v.push(concat2("--date=", date.as_str()));
            },
            GitOp::StatusShort => {
                v.push(lit("status"));
                v.push(lit("--short"));
            },
            GitOp::ResetHardHeadMinusOne => {
                v.push(lit("reset"));
                v.push(lit("--hard"));
                v.push(lit("HEAD~1"));
            },
        }
        assert(views(v@) =~= op_args(*self));
        v
    }
}

} // verus!

verus! {

// ---------------------------------------------------------------------
// Branch listing
// ---------------------------------------------------------------------

/// The branch a `for-each-ref` line describes, when it has all four
/// `|`-separated fields and is neither the current branch nor a `*/HEAD`
/// alias. An epoch that does not parse counts as 0.
pub open spec fn branch_from_line(line: Seq<char>, current: Seq<char>) -> Option<BranchView> {
    match split_once(line, '|') {
        None => None,
        Some((full_ref, r1)) => match split_once(r1, '|') {
            None => None,
            Some((name, r2)) => match split_once(r2, '|') {
                None => None,
                Some((epoch, relative)) => if name == current || crate::text::is_suffix(
                    "/HEAD"@,
                    name,
                ) {
                    None
                } else {
                    let e: i64 = match parse_i64_spec(epoch) {
                        Some(x) => x as i64,
                        None => 0,
                    };
                    Some((name, e, relative, is_prefix("refs/heads/"@, full_ref)))
                },
            },
        },
    }
}

/// The branches the lines describe, in line order.
pub open spec fn branches_of_lines(ls: Seq<Seq<char>>, current: Seq<char>) -> Seq<BranchView>
    decreases ls.len(),
{
    if ls.len() == 0 {
        seq![]
    } else {
        let rest = branches_of_lines(ls.drop_last(), current);
        match branch_from_line(ls.last(), current) {
            Some(b) => rest.push(b),
            None => rest,
        }
    }
}

pub open spec fn branch_views(s: Seq<Branch>) -> Seq<BranchView> {
    s.map_values(|b: Branch| b@)
}

/// Newest first: no branch has an older commit than one after it.
pub open spec fn newest_first(s: Seq<BranchView>) -> bool {
    forall|i: int, j: int| 0 <= i < j < s.len() ==> (#[trigger] s[i]).1 >= (#[trigger] s[j]).1
}

/// The branches of `s` whose last commit has epoch `e`, in order.
pub open spec fn with_epoch(s: Seq<BranchView>, e: i64) -> Seq<BranchView> {
    s.filter(epoch_is(e))
}

pub open spec fn epoch_is(e: i64) -> spec_fn(BranchView) -> bool {
    |b: BranchView| b.1 == e
}

/// `out` is `inp` stably sorted newest first: sorted, and branches with
/// equal epochs keep their order.
pub open spec fn stable_newest_first(out: Seq<BranchView>, inp: Seq<BranchView>) -> bool {
    &&& newest_first(out)
    &&& forall|e: i64| #[trigger] with_epoch(out, e) == with_epoch(inp, e)
}

fn parse_branch_line(line: &Vec<char>, current: &Vec<char>) -> (r: Option<Branch>)
    ensures
        match (r, branch_from_line(line@, current@)) {
            (Some(b), Some(v)) => b@ == v,
            (None, None) => true,
            _ => false,
        },
{
    let (full_ref, r1) = match split_once_chars(line, '|') {
        Some(p) => p,
        None => return None,
    };
    let (name, r2) = match split_once_chars(&r1, '|') {
        Some(p) => p,
        None => return None,
    };
    let (epoch, relative) = match split_once_chars(&r2, '|') {
        Some(p) => p,
        None => return None,
    };
    let head = chars_of("/HEAD");
    if crate::text::chars_eq(&name, current) || crate::text::ends_with_chars(&name, &head) {
        return None;
    }
    let e: i64 = match parse_i64(&epoch) {
        Some(x) => x,
        None => 0,
    };
    let heads = chars_of("refs/heads/");
    let local = crate::text::starts_with_chars(&full_ref, &heads);
    Some(
        Branch {
            name: string_of(&name),
            last_commit_epoch: e,
            last_commit_relative: string_of(&relative),
            is_local: local,
        },
    )
}

proof fn lemma_filter_insert(s: Seq<BranchView>, p: int, x: BranchView, e: i64)
    requires
        0 <= p <= s.len(),
        newest_first(s),
        forall|k: int| 0 <= k < p ==> (#[trigger] s[k]).1 >= x.1,
        forall|k: int| p <= k < s.len() ==> (#[trigger] s[k]).1 < x.1,
    ensures
        with_epoch(s.insert(p, x), e) == if x.1 == e {
            with_epoch(s, e).push(x)
        } else {
            with_epoch(s, e)
        },
{
    let f = epoch_is(e);
    let a = s.subrange(0, p);
    let c = s.subrange(p, s.len() as int);
    assert(s == a + c);
    assert(s.insert(p, x) == a + seq![x] + c);
    Seq::filter_distributes_over_add(a, c, f);
    Seq::filter_distributes_over_add(a + seq![x], c, f);
    Seq::filter_distributes_over_add(a, seq![x], f);
    if x.1 == e {
        assert forall|k: int| 0 <= k < c.len() implies !f(c[k]) by {
            assert(c[k] == s[p + k]);
        }
        c.lemma_all_neg_filter_empty(f);
        assert(seq![x].filter(f) == seq![x]) by {
            reveal_with_fuel(Seq::filter, 2);
        }
    } else {
        assert(seq![x].filter(f) == Seq::<BranchView>::empty()) by {
            reveal_with_fuel(Seq::filter, 2);
        }
    }
}

/// Sorts branches newest first, keeping the order of equal epochs.
pub fn sort_newest_first(v: Vec<Branch>) -> (r: Vec<Branch>)
    ensures
        stable_newest_first(branch_views(r@), branch_views(v@)),
{
    let n = v.len();
    let mut out: Vec<Branch> = Vec::new();
    let mut i: usize = 0;
    assert(branch_views(v@).take(0) =~= branch_views(out@));
    while i < n
        invariant
            n == v@.len(),
            i <= n,
            stable_newest_first(branch_views(out@), branch_views(v@).take(i as int)),
        decreases n - i,
    {
        let x = v[i].clone();
        let m = out.len();
        let mut p: usize = 0;
        while p < m && out[p].last_commit_epoch >= x.last_commit_epoch
            invariant
                m == out@.len(),
                p <= m,
                forall|k: int| 0 <= k < p ==> (#[trigger] out@[k]).last_commit_epoch
                    >= x.last_commit_epoch,
            decreases m - p,
        {
            p = p + 1;
        }
        let ghost before = branch_views(out@);
        proof {
            assert forall|k: int| p <= k < before.len() implies (#[trigger] before[k]).1 < x@.1 by {
                if k > p {
                    assert(before[p as int].1 >= before[k].1);
                }
            }
        }
        out.insert(p, x);
        proof {
            let after = branch_views(out@);
            assert(after =~= before.insert(p as int, x@));
            assert forall|a: int, b: int| 0 <= a < b < after.len() implies (#[trigger] after[a]).1
                >= (#[trigger] after[b]).1 by {
                if b < p {
                    assert(after[a] == before[a] && after[b] == before[b]);
                } else if b == p {
                    assert(after[a] == before[a]);
                } else if a == p {
                    assert(after[b] == before[b - 1]);
                } else if a < p {
                    assert(after[a] == before[a] && after[b] == before[b - 1]);
                } else {
                    assert(after[a] == before[a - 1] && after[b] == before[b - 1]);
                }
            }
            let inp = branch_views(v@).take(i + 1);
            assert(inp == branch_views(v@).take(i as int).push(x@));
            assert forall|e: i64| #[trigger] with_epoch(after, e) == with_epoch(inp, e) by {
                lemma_filter_insert(before, p as int, x@, e);
                branch_views(v@).take(i as int).lemma_filter_push(x@, epoch_is(e));
            }
        }
        i = i + 1;
    }
    assert(branch_views(v@).take(n as int) == branch_views(v@));
    out
}

/// The branch list from what `rev-parse --abbrev-ref HEAD` (`current`) and
/// `for-each-ref` (`raw`) gave: every well-formed line except the current
/// branch and `*/HEAD` aliases, newest first. The current branch counts as
/// empty when its lookup failed; a failed listing is the error.
pub fn list_branches(current: &Result<String, GitError>, raw: &Result<String, GitError>) -> (r:
    Result<Vec<Branch>, GitError>)
    ensures
        match raw {
            Err(e) => r == Err::<Vec<Branch>, GitError>(*e),
            Ok(out) => r matches Ok(bs) && stable_newest_first(
                branch_views(bs@),
                branches_of_lines(
                    lines(out@),
                    match current {
                        Ok(c) => c@,
                        Err(_) => Seq::<char>::empty(),
                    },
                ),
            ),
        },
{
    let cur: Vec<char> = match current {
        Ok(c) => chars_of(c.as_str()),
        Err(_) => Vec::new(),
    };
    let out = match raw {
        Ok(o) => o,
        Err(e) => return Err(e.clone()),
    };
    let text = chars_of(out.as_str());
    let ls = lines_of(&text);
    let ghost lv = lines(text@);
    let mut parsed: Vec<Branch> = Vec::new();
    let mut i: usize = 0;
    while i < ls.len()
        invariant
            ls@.len() == lv.len(),
            forall|k: int| 0 <= k < ls@.len() ==> #[trigger] ls@[k]@ == lv[k],
            i <= ls@.len(),
            branch_views(parsed@) == branches_of_lines(lv.take(i as int), cur@),
        decreases ls@.len() - i,
    {
        let b = parse_branch_line(&ls[i], &cur);
        proof {
            assert(lv.take(i + 1).drop_last() == lv.take(i as int));
            assert(lv.take(i + 1).last() == ls@[i as int]@);
        }
        match b {
            Some(b) => {
                parsed.push(b);
                assert(branch_views(parsed@) =~= branches_of_lines(lv.take(i + 1), cur@));
            },
            None => {},
        }
        i = i + 1;
    }
    assert(lv.take(ls@.len() as int) == lv);
    Ok(sort_newest_first(parsed))
}

} // verus!

verus! {

// ---------------------------------------------------------------------
// Commit listing and the other answers git gives
// ---------------------------------------------------------------------

/// The commit a `git log` line describes, when it has exactly five
/// U+001F-separated fields.
pub open spec fn commit_from_line(line: Seq<char>) -> Option<CommitView> {
    match split_once(line, field_sep()) {
        None => None,
        Some((sha, r1)) => match split_once(r1, field_sep()) {
            None => None,
            Some((short, r2)) => match split_once(r2, field_sep()) {
                None => None,
                Some((msg, r3)) => match split_once(r3, field_sep()) {
                    None => None,
                    Some((author, date)) => if crate::text::has_char(date, field_sep()) {
                        None
                    } else {
                        Some((sha, short, msg, author, date))
                    },
                },
            },
        },
    }
}

/// The commits the lines describe, in line order.
pub open spec fn commits_of_lines(ls: Seq<Seq<char>>) -> Seq<CommitView>
    decreases ls.len(),
{
    if ls.len() == 0 {
        seq![]
    } else {
        let rest = commits_of_lines(ls.drop_last());
        match commit_from_line(ls.last()) {
            Some(c) => rest.push(c),
            None => rest,
        }
    }
}

pub open spec fn commit_views(s: Seq<Commit>) -> Seq<CommitView> {
    s.map_values(|c: Commit| c@)
}

fn parse_commit_line(line: &Vec<char>) -> (r: Option<Commit>)
    ensures
        match (r, commit_from_line(line@)) {
            (Some(c), Some(v)) => c@ == v,
            (None, None) => true,
            _ => false,
        },
{
    let sep = '\u{1f}';
    let (sha, r1) = match split_once_chars(line, sep) {
        Some(p) => p,
        None => return None,
    };
    let (short, r2) = match split_once_chars(&r1, sep) {
        Some(p) => p,
        None => return None,
    };
    let (msg, r3) = match split_once_chars(&r2, sep) {
        Some(p) => p,
        None => return None,
    };
    let (author, date) = match split_once_chars(&r3, sep) {
        Some(p) => p,
        None => return None,
    };
    let n = date.len();
    match crate::text::find_char_from(&date, sep, 0) {
        Some(_) => {
            assert(date@.subrange(0, n as int) == date@);
            return None;
        },
        None => {
            assert(date@.subrange(0, n as int) == date@);
        },
    }
    Some(
        Commit {
            sha: string_of(&sha),
            short_sha: string_of(&short),
            message: string_of(&msg),
            author: string_of(&author),
            date_rfc2822: string_of(&date),
        },
    )
}

/// The commits from what `git log --reverse` gave, oldest first: one per
/// well-formed line. A failed log is the error.
pub fn list_commits(raw: &Result<String, GitError>) -> (r: Result<Vec<Commit>, GitError>)
    ensures
        match raw {
            Err(e) => r == Err::<Vec<Commit>, GitError>(*e),
            Ok(out) => r matches Ok(cs) && commit_views(cs@) == commits_of_lines(lines(out@)),
        },
{
    let out = match raw {
        Ok(o) => o,
        Err(e) => return Err(e.clone()),
    };
    let text = chars_of(out.as_str());
    let ls = lines_of(&text);
    let ghost lv = lines(text@);
    let mut cs: Vec<Commit> = Vec::new();
    let mut i: usize = 0;
    while i < ls.len()
        invariant
            ls@.len() == lv.len(),
            forall|k: int| 0 <= k < ls@.len() ==> #[trigger] ls@[k]@ == lv[k],
            i <= ls@.len(),
            commit_views(cs@) == commits_of_lines(lv.take(i as int)),
        decreases ls@.len() - i,
    {
        let c = parse_commit_line(&ls[i]);
        proof {
            assert(lv.take(i + 1).drop_last() == lv.take(i as int));
            assert(lv.take(i + 1).last() == ls@[i as int]@);
        }
        match c {
            Some(c) => {
                cs.push(c);
                assert(commit_views(cs@) =~= commits_of_lines(lv.take(i + 1)));
            },
            None => {},
        }
        i = i + 1;
    }
    assert(lv.take(ls@.len() as int) == lv);
    Ok(cs)
}

/// The SHAs that `git cherry` marks with `-` (already equivalent on the
/// base), trimmed.
pub open spec fn cherry_empty_shas(ls: Seq<Seq<char>>) -> Set<Seq<char>>
    decreases ls.len(),
{
    if ls.len() == 0 {
        Set::empty()
    } else {
        let rest = cherry_empty_shas(ls.drop_last());
        match split_once(ls.last(), ' ') {
            Some((sign, sha)) => if sign == "-"@ {
                rest.insert(trim(sha))
            } else {
                rest
            },
            None => rest,
        }
    }
}

/// SHAs of commits whose patch is already on the base, from what
/// `git cherry` gave. A failed `git cherry` is the error.
pub fn empty_pick_shas(raw: &Result<String, GitError>) -> (r: Result<NameSet, GitError>)
    ensures
        match raw {
            Err(e) => r == Err::<NameSet, GitError>(*e),
            Ok(out) => r matches Ok(set) && set@ == cherry_empty_shas(lines(out@)),
        },
{
    let out = match raw {
        Ok(o) => o,
        Err(e) => return Err(e.clone()),
    };
    let text = chars_of(out.as_str());
    let ls = lines_of(&text);
    let ghost lv = lines(text@);
    let minus = chars_of("-");
    proof {
        reveal_strlit("-");
    }
    let mut set = NameSet::new();
    let mut i: usize = 0;
    while i < ls.len()
        invariant
            ls@.len() == lv.len(),
            forall|k: int| 0 <= k < ls@.len() ==> #[trigger] ls@[k]@ == lv[k],
            i <= ls@.len(),
            minus@ == "-"@,
            set@ == cherry_empty_shas(lv.take(i as int)),
        decreases ls@.len() - i,
    {
        proof {
            assert(lv.take(i + 1).drop_last() == lv.take(i as int));
            assert(lv.take(i + 1).last() == ls@[i as int]@);
        }
        match split_once_chars(&ls[i], ' ') {
            Some((sign, sha)) => {
                if crate::text::chars_eq(&sign, &minus) {
                    let t = trim_chars(&sha);
                    set.insert(string_of(&t));
                }
            },
            None => {},
        }
        i = i + 1;
    }
    assert(lv.take(ls@.len() as int) == lv);
    Ok(set)
}

/// How many commits `rev-list --count` reported, or a `CommandFailed`
/// naming the output when it is not a number. A failed command is the error.
pub fn commits_ahead_of_remote_master(raw: &Result<String, GitError>) -> (r: Result<
    usize,
    GitError,
>)
    ensures
        match raw {
            Err(e) => r == Err::<usize, GitError>(*e),
            Ok(out) => match parse_usize_spec(out@) {
                Some(n) => r == Ok::<usize, GitError>(n as usize),
                None => r matches Err(GitError::CommandFailed(m)) && m@
                    == "unexpected rev-list output: "@ + out@,
            },
        },
{
    let out = match raw {
        Ok(o) => o,
        Err(e) => return Err(e.clone()),
    };
    let text = chars_of(out.as_str());
    match parse_usize(&text) {
        Some(n) => Ok(n),
        None => {
            let mut m = String::from_str("unexpected rev-list output: ");
            m.append(out.as_str());
            Err(GitError::CommandFailed(m))
        },
    }
}

/// `Ok(())` exactly when `rev-parse --is-inside-work-tree` answered `true`.
pub fn check_is_repo(raw: &Result<String, GitError>) -> (r: Result<(), GitError>)
    ensures
        match raw {
            Ok(out) if out@ == "true"@ => r == Ok::<(), GitError>(()),
            _ => r == Err::<(), GitError>(GitError::NotAGitRepo),
        },
{
    match raw {
        Ok(out) => {
            if str_eq(out.as_str(), "true") {
                Ok(())
            } else {
                Err(GitError::NotAGitRepo)
            }
        },
        Err(_) => Err(GitError::NotAGitRepo),
    }
}

/// The base ref: the override when given; else what `origin/HEAD` points
/// at (without `refs/remotes/`); else `main`, else `master`, whichever
/// resolves first; else `NoBaseFound`.
pub fn detect_base(
    override_ref: Option<&str>,
    origin_head: &Result<String, GitError>,
    main_resolves: bool,
    master_resolves: bool,
) -> (r: Result<String, GitError>)
    ensures
        match override_ref {
            Some(o) => r matches Ok(b) && b@ == o@,
            None => match origin_head {
                Ok(sym) if is_prefix("refs/remotes/"@, sym@) => r matches Ok(b) && b@
                    == sym@.subrange("refs/remotes/"@.len() as int, sym@.len() as int),
                _ => if main_resolves {
                    r matches Ok(b) && b@ == "main"@
                } else if master_resolves {
                    r matches Ok(b) && b@ == "master"@
                } else {
                    r == Err::<String, GitError>(GitError::NoBaseFound)
                },
            },
        },
{
    if let Some(o) = override_ref {
        return Ok(String::from_str(o));
    }
    if let Ok(sym) = origin_head {
        let sv = chars_of(sym.as_str());
        let prefix = chars_of("refs/remotes/");
        if crate::text::starts_with_chars(&sv, &prefix) {
            return Ok(string_of_range(&sv, prefix.len(), sv.len()));
        }
    }
    if main_resolves {
        return Ok(String::from_str("main"));
    }
    if master_resolves {
        return Ok(String::from_str("master"));
    }
    Err(GitError::NoBaseFound)
}

/// True if a cherry-pick failure message is git's refusal to create an
/// empty commit rather than an actual merge conflict.
pub fn is_empty_cherry_pick_message(msg: &str) -> (r: bool)
    ensures
        r == (contains_sub(msg@, "previous cherry-pick is now empty"@) || contains_sub(
            msg@,
            "allow an empty commit"@,
        )),
{
    str_contains(msg, "previous cherry-pick is now empty") || str_contains(
        msg,
        "allow an empty commit",
    )
}

/// The commits of `cs` whose SHA is not in `empty`, in order.
pub open spec fn without_empty_picks(cs: Seq<Commit>, empty: Set<Seq<char>>) -> Seq<Commit> {
    cs.filter(|c: Commit| !empty.contains(c.sha@))
}

/// Drops the commits that would land as empty picks (their SHA is in
/// `empty`), keeping the others in order.
pub fn drop_empty_picks(commits: &Vec<Commit>, empty: &NameSet) -> (r: Vec<Commit>)
    ensures
        r@ == without_empty_picks(commits@, empty@),
{
    let ghost pred = |c: Commit| !empty@.contains(c.sha@);
    let n = commits.len();
    let mut kept: Vec<Commit> = Vec::new();
    let mut i: usize = 0;
    while i < n
        invariant
            n == commits@.len(),
            i <= n,
            pred == (|c: Commit| !empty@.contains(c.sha@)),
            kept@ == commits@.take(i as int).filter(pred),
        decreases n - i,
    {
        let keep = !empty.contains(commits[i].sha.as_str());
        proof {
            assert(commits@.take(i + 1) == commits@.take(i as int).push(commits@[i as int]));
            commits@.take(i as int).lemma_filter_push(commits@[i as int], pred);
        }
        if keep {
            kept.push(commits[i].clone());
        }
        i = i + 1;
    }
    assert(commits@.take(n as int) == commits@);
    kept
}

/// Whether telling a branch's empty picks apart needs `git cherry`: only
/// when its commits ahead of the base were listed and there is at least one.
pub fn cherry_needed(commits: &Result<Vec<Commit>, GitError>) -> (r: bool)
    ensures
        r == (*commits matches Ok(cs) && cs@.len() > 0),
{
    match commits {
        Ok(cs) => cs.len() > 0,
        Err(_) => false,
    }
}

/// Every commit of `cs` has its SHA in `set`.
pub open spec fn all_shas_in(cs: Seq<Commit>, set: Set<Seq<char>>) -> bool {
    forall|k: int| 0 <= k < cs.len() ==> set.contains(#[trigger] cs[k].sha@)
}

/// Whether there is nothing worth picking from a branch, from its commits
/// ahead of base and the SHAs that would pick as empty: no commits at all,
/// or every one of them empty. Errors pass through, the listing's first.
pub fn is_fully_picked(
    commits: &Result<Vec<Commit>, GitError>,
    empty: &Result<NameSet, GitError>,
) -> (r: Result<bool, GitError>)
    ensures
        commits matches Err(e) ==> r == Err::<bool, GitError>(*e),
        commits matches Ok(cs) ==> (cs@.len() == 0 ==> r == Ok::<bool, GitError>(true)),
        (*commits is Ok && commits->Ok_0@.len() > 0 && *empty is Err) ==> r == Err::<
            bool,
            GitError,
        >(empty->Err_0),
        (*commits is Ok && commits->Ok_0@.len() > 0 && *empty is Ok) ==> r == Ok::<
            bool,
            GitError,
        >(all_shas_in(commits->Ok_0@, empty->Ok_0@)),
{
    let cs = match commits {
        Ok(cs) => cs,
        Err(e) => return Err(e.clone()),
    };
    if cs.len() == 0 {
        return Ok(true);
    }
    let set = match empty {
        Ok(s) => s,
        Err(e) => return Err(e.clone()),
    };
    let mut i: usize = 0;
    while i < cs.len()
        invariant
            *commits == Ok::<Vec<Commit>, GitError>(*cs),
            *empty == Ok::<NameSet, GitError>(*set),
            cs@.len() > 0,
            i <= cs@.len(),
            forall|k: int| 0 <= k < i ==> set@.contains(#[trigger] cs@[k].sha@),
        decreases cs@.len() - i,
    {
        if !set.contains(cs[i].sha.as_str()) {
            assert(!set@.contains(cs@[i as int].sha@));
            assert(!all_shas_in(cs@, set@));
            return Ok(false);
        }
        i = i + 1;
    }
    Ok(true)
}

/// Names of the branches whose check answered `Ok(true)`; a branch whose
/// check failed counts as pickable and is left out.
pub fn fully_picked_branches(branches: &Vec<Branch>, verdicts: &Vec<Result<bool, GitError>>) -> (r:
    NameSet)
    requires
        verdicts@.len() == branches@.len(),
    ensures
        forall|x: Seq<char>|
            #![trigger r@.contains(x)]
            r@.contains(x) <==> exists|k: int|
                0 <= k < branches@.len() && branches@[k].name@ == x && verdicts@[k] matches Ok(
                    true,
                ),
{
    let mut set = NameSet::new();
    let mut i: usize = 0;
    while i < branches.len()
        invariant
            verdicts@.len() == branches@.len(),
            i <= branches@.len(),
            forall|x: Seq<char>|
                #![trigger set@.contains(x)]
                set@.contains(x) <==> exists|k: int|
                    0 <= k < i && branches@[k].name@ == x && verdicts@[k] matches Ok(true),
        decreases branches@.len() - i,
    {
        let picked = match &verdicts[i] {
            Ok(true) => true,
            _ => false,
        };
        if picked {
            set.insert(branches[i].name.clone());
        }
        proof {
            assert forall|x: Seq<char>| #![trigger set@.contains(x)] set@.contains(x) <==> exists|k: int|
                0 <= k < i + 1 && branches@[k].name@ == x && verdicts@[k] matches Ok(true) by {
                if set@.contains(x) {
                    if !(exists|k: int| 0 <= k < i && branches@[k].name@ == x && verdicts@[k] matches Ok(true)) {
                        assert(0 <= i < i + 1 && branches@[i as int].name@ == x);
                    }
                }
            }
        }
        i = i + 1;
    }
    set
}

} // verus!

verus! {

/// The text a failed git command reports as its error: `None` when it
/// succeeded.
pub open spec fn failure_text(reply: GitReply) -> Option<Seq<char>> {
    match command_result_spec(reply) {
        Ok(_) => None,
        Err(t) => Some("git command failed: "@ + t),
    }
}

/// `Ok(())` when the command succeeded, else the text of its error.
pub fn outcome_text(r: Result<(), GitError>) -> (t: Result<(), String>)
    ensures
        match r {
            Ok(_) => t is Ok,
            Err(e) => t matches Err(m) && m@ == error_text(e),
        },
{
    match r {
        Ok(()) => Ok(()),
        Err(e) => Err(e.message()),
    }
}

/// `r` is what git answered with its output dropped: `Ok(())` on success,
/// the same error otherwise.
pub open spec fn output_dropped(raw: Result<String, GitError>, r: Result<(), GitError>) -> bool {
    match (raw, r) {
        (Ok(_), Ok(_)) => true,
        (Err(e), Err(f)) => f == e,
        _ => false,
    }
}

fn drop_output(raw: &Result<String, GitError>) -> (r: Result<(), GitError>)
    ensures
        output_dropped(*raw, r),
{
    match raw {
        Ok(_) => Ok(()),
        Err(e) => Err(e.clone()),
    }
}

/// What `git fetch --prune --quiet` gave: whether the remote-tracking refs
/// were refreshed.
pub fn fetch_all(raw: &Result<String, GitError>) -> (r: Result<(), GitError>)
    ensures
        output_dropped(*raw, r),
{
    drop_output(raw)
}

/// What `git branch -D <name>` gave: whether the local branch was
/// force-deleted.
pub fn delete_branch(raw: &Result<String, GitError>) -> (r: Result<(), GitError>)
    ensures
        output_dropped(*raw, r),
{
    drop_output(raw)
}

/// What `git push <remote> --delete <branch>` gave: whether the branch was
/// deleted on the remote.
pub fn delete_remote_branch(raw: &Result<String, GitError>) -> (r: Result<(), GitError>)
    ensures
        output_dropped(*raw, r),
{
    drop_output(raw)
}

/// What `git update-ref -d refs/remotes/<name>` gave: whether the stale
/// remote-tracking ref was removed (the remote itself is not touched).
pub fn prune_remote_tracking_ref(raw: &Result<String, GitError>) -> (r: Result<(), GitError>)
    ensures
        output_dropped(*raw, r),
{
    drop_output(raw)
}

/// What `git worktree remove <path>` gave. It never forces: a worktree
/// with uncommitted changes is refused, and that error is passed on.
pub fn remove_worktree(raw: &Result<String, GitError>) -> (r: Result<(), GitError>)
    ensures
        output_dropped(*raw, r),
{
    drop_output(raw)
}

/// What `git push origin <base>:master` gave.
pub fn push_to_master(raw: &Result<String, GitError>) -> (r: Result<(), GitError>)
    ensures
        output_dropped(*raw, r),
{
    drop_output(raw)
}

/// What `git cherry-pick --abort` gave.
pub fn cherry_pick_abort(raw: &Result<String, GitError>) -> (r: Result<(), GitError>)
    ensures
        output_dropped(*raw, r),
{
    drop_output(raw)
}

/// What `git commit --allow-empty --no-edit` gave: whether a cherry-pick
/// that resolved to nothing was committed as an empty commit.
pub fn commit_allow_empty(raw: &Result<String, GitError>) -> (r: Result<(), GitError>)
    ensures
        output_dropped(*raw, r),
{
    drop_output(raw)
}

/// What the re-authoring `git commit --amend` gave.
pub fn amend_reauthor(raw: &Result<String, GitError>) -> (r: Result<(), GitError>)
    ensures
        output_dropped(*raw, r),
{
    drop_output(raw)
}

/// What `git reset --hard HEAD~1` gave: whether the landed commit was
/// undone.
pub fn reset_hard_head_minus_one(raw: &Result<String, GitError>) -> (r: Result<(), GitError>)
    ensures
        output_dropped(*raw, r),
{
    drop_output(raw)
}

/// The diff `git show <sha>` printed, or its error.
pub fn show_commit(raw: &Result<String, GitError>) -> (r: Result<String, GitError>)
    ensures
        result_view(r) == result_view(*raw),
{
    match raw {
        Ok(s) => Ok(s.clone()),
        Err(e) => Err(e.clone()),
    }
}

/// What `git status --short` printed, or its error.
pub fn status_summary(raw: &Result<String, GitError>) -> (r: Result<String, GitError>)
    ensures
        result_view(r) == result_view(*raw),
{
    match raw {
        Ok(s) => Ok(s.clone()),
        Err(e) => Err(e.clone()),
    }
}

/// What `git cherry-pick <sha>` gave (see `cherry_pick_result`).
pub fn cherry_pick(reply: &GitReply) -> (r: Result<CherryPickOutcome, GitError>)
    ensures
        picked(*reply, r),
{
    cherry_pick_result(reply)
}

/// What `git cherry-pick --continue` gave (see `cherry_pick_result`).
pub fn cherry_pick_continue(reply: &GitReply) -> (r: Result<CherryPickOutcome, GitError>)
    ensures
        picked(*reply, r),
{
    cherry_pick_result(reply)
}

} // verus!
