use vstd::prelude::*;
use crate::git::{Branch, Commit, GitOp};
use crate::sets::{IndexSet, NameSet};

verus! {

/// The screen being shown.
#[derive(Debug, Clone, Copy, PartialEq, Eq, Structural)]
pub enum Screen {
    BranchList,
    CommitList,
    Execution,
    ConflictPause,
    Quit,
}

/// Where a queued cherry-pick stands.
#[derive(Debug)]
pub enum ExecutionOutcome {
    Pending,
    Done,
    Failed(String),
}

/// A queued commit and where its cherry-pick stands.
#[derive(Debug)]
pub struct ExecutionResult {
    pub commit: Commit,
    pub outcome: ExecutionOutcome,
}

/// Why execution is paused.
#[derive(Debug, Clone, Copy, PartialEq, Eq, Structural)]
pub enum PauseReason {
    /// A cherry-pick sequencer is actively in progress (conflict mid-pick).
    CherryPickConflict,
    /// The cherry-pick itself succeeded, but the follow-up amend failed.
    /// There is no sequencer to continue/abort here.
    AmendFailure,
    /// A hard error occurred while stepping execution (e.g. git unspawnable).
    StepError,
    /// The cherry-pick resolved to an empty diff — everything it would
    /// change is already present on base; it can be kept as an empty
    /// commit or given up.
    EmptyAfterResolve,
}

/// A delete waiting for the user's y/n.
#[derive(Debug, PartialEq)]
pub enum PendingDelete {
    /// Confirm force-deleting a local branch (`git branch -D`).
    Local(String),
    /// Confirm deleting a remote-tracking branch's real branch on the
    /// remote (`git push <remote> --delete <branch>`).
    Remote(String),
    /// The local delete failed because the branch is checked out in
    /// another worktree; confirm removing that worktree and retrying.
    RemoveWorktree { branch: String, path: String },
    /// Confirm deleting several branches at once.
    Bulk(Vec<String>),
}

/// An in-progress bulk delete, processed one branch per tick.
#[derive(Debug, PartialEq)]
pub struct BulkDeleteState {
    pub names: Vec<String>,
    pub index: usize,
    pub errors: Vec<String>,
}

/// Everything the screens show and edit.
pub struct AppState {
    pub cwd: String,
    pub base: String,
    pub screen: Screen,
    pub branches: Vec<Branch>,
    pub branch_cursor: usize,
    pub branch_filter: String,
    /// True while the branch list's search field is being edited.
    pub search_active: bool,
    /// Branches with nothing left to pick, hidden unless `show_all_branches`.
    pub fully_picked: NameSet,
    pub show_all_branches: bool,
    /// Set with `p` on the branch list; confirmed with y/n.
    pub pending_push: bool,
    /// How many commits base is ahead of `origin/master`, when known.
    pub push_ahead_count: Option<usize>,
    /// The count shown in a pending push confirmation, when known.
    pub pending_push_count: Option<usize>,
    /// Branches multi-selected with Space, for a bulk delete.
    pub selected_branches: NameSet,
    /// Where a Shift+Up/Down range selection started.
    pub range_anchor: Option<usize>,
    pub selected_branch: Option<String>,
    pub commits: Vec<Commit>,
    pub commit_cursor: usize,
    pub selected: IndexSet,
    pub execution_queue: Vec<usize>,
    pub execution_index: usize,
    pub execution_results: Vec<ExecutionResult>,
    pub conflict_message: Option<String>,
    pub pause_reason: Option<PauseReason>,
    pub last_error: Option<String>,
    pub pending_delete: Option<PendingDelete>,
    pub bulk_delete: Option<BulkDeleteState>,
}

impl AppState {
    /// The state gpick starts in: the branch list, nothing selected.
    pub fn new(cwd: String, base: String, branches: Vec<Branch>) -> (r: Self)
        ensures
            r.cwd == cwd,
            r.base == base,
            r.branches == branches,
            r.screen == Screen::BranchList,
            r.branch_cursor == 0,
            r.branch_filter@ == Seq::<char>::empty(),
            !r.search_active,
            r.fully_picked@ == Set::<Seq<char>>::empty(),
            !r.show_all_branches,
            !r.pending_push,
            r.push_ahead_count is None,
            r.pending_push_count is None,
            r.selected_branches@ == Set::<Seq<char>>::empty(),
            r.range_anchor is None,
            r.selected_branch is None,
            r.commits@ == Seq::<Commit>::empty(),
            r.commit_cursor == 0,
            r.selected@ == Set::<usize>::empty(),
            r.execution_queue@ == Seq::<usize>::empty(),
            r.execution_index == 0,
            r.execution_results@ == Seq::<ExecutionResult>::empty(),
            r.conflict_message is None,
            r.pause_reason is None,
            r.last_error is None,
            r.pending_delete is None,
            r.bulk_delete is None,
    {
        AppState {
            cwd,
            base,
            screen: Screen::BranchList,
            branches,
            branch_cursor: 0,
            branch_filter: String::new(),
            search_active: false,
            fully_picked: NameSet::new(),
            show_all_branches: false,
            pending_push: false,
            push_ahead_count: None,
            pending_push_count: None,
            selected_branches: NameSet::new(),
            range_anchor: None,
            selected_branch: None,
            commits: Vec::new(),
            commit_cursor: 0,
            selected: IndexSet::new(),
            execution_queue: Vec::new(),
            execution_index: 0,
            execution_results: Vec::new(),
            conflict_message: None,
            pause_reason: None,
            last_error: None,
            pending_delete: None,
            bulk_delete: None,
        }
    }

    /// Shows `commits` on the commit list: cursor on the first, nothing
    /// selected.
    pub fn load_commits(&mut self, commits: Vec<Commit>)
        ensures
            *final(self) == (AppState {
                commits: commits,
                commit_cursor: 0,
                selected: final(self).selected,
                ..*old(self)
            }),
            final(self).selected@ == Set::<usize>::empty(),
    {
        self.commits = commits;
        self.commit_cursor = 0;
        self.selected.clear();
    }
}

/// Breadcrumb segments for the header bar, reflecting where the user is in
/// the branch -> commits -> execution flow.
pub open spec fn breadcrumb_spec(screen: Screen, selected_branch: Option<Seq<char>>) -> Seq<
    Seq<char>,
> {
    match screen {
        Screen::BranchList => seq!["Branches"@],
        Screen::CommitList => match selected_branch {
            Some(b) => seq!["Branches"@, b, "Commits"@],
            None => seq!["Commits"@],
        },
        Screen::Execution => seq!["Execution"@],
        Screen::ConflictPause => seq!["Execution"@, "Conflict"@],
        Screen::Quit => seq![],
    }
}

/// The view of an optional string.
pub open spec fn opt_view(o: Option<String>) -> Option<Seq<char>> {
    match o {
        Some(s) => Some(s@),
        None => None,
    }
}

/// Breadcrumb segments for the header bar.
pub fn breadcrumb_segments(state: &AppState) -> (r: Vec<String>)
    ensures
        crate::text::views(r@) == breadcrumb_spec(state.screen, opt_view(state.selected_branch)),
{
    let mut v: Vec<String> = Vec::new();
    match state.screen {
        Screen::BranchList => {
            v.push(String::from_str("Branches"));
        },
        Screen::CommitList => match &state.selected_branch {
            Some(b) => {
                v.push(String::from_str("Branches"));
                v.push(b.clone());
                v.push(String::from_str("Commits"));
            },
            None => {
                v.push(String::from_str("Commits"));
            },
        },
        Screen::Execution => {
            v.push(String::from_str("Execution"));
        },
        Screen::ConflictPause => {
            v.push(String::from_str("Execution"));
            v.push(String::from_str("Conflict"));
        },
        Screen::Quit => {},
    }
    assert(crate::text::views(v@) =~= breadcrumb_spec(
        state.screen,
        opt_view(state.selected_branch),
    ));
    v
}

} // verus!

verus! {

/// Which answer of git a flow is waiting for, and what it will do with it.
#[derive(Debug)]
pub enum Flow {
    /// The count shown in a push confirmation.
    PushCount,
    /// The push to `origin/master` itself.
    Push,
    /// The ahead-count after a successful push.
    PushRefresh,
    /// The commits of the branch just opened (named here).
    LoadCommits(String),
    /// Dropping, from the commits just listed, those that would land as
    /// empty picks (`git cherry` of the opened branch).
    DropEmptyPicks,
    /// Deleting a confirmed local branch.
    DeleteLocal(String),
    /// Deleting a confirmed remote branch (its remote-tracking name).
    DeleteRemote(String),
    /// Pruning the stale tracking ref of a branch the remote no longer has.
    PruneStale(String),
    /// Removing the worktree a branch is checked out in.
    RemoveWorktree(String),
    /// Deleting a branch after its worktree was removed.
    DeleteAfterWorktree(String),
    /// Deleting one local branch of a bulk delete.
    BulkLocal(String),
    /// Deleting one remote branch of a bulk delete.
    BulkRemote(String),
    /// Pruning the stale tracking ref during a bulk delete.
    BulkPrune(String),
    /// The cherry-pick of the current queue entry.
    Pick,
    /// The re-authoring amend after a clean cherry-pick.
    Amend,
    /// Aborting the paused cherry-pick.
    AbortPick,
    /// Undoing the landed commit whose amend failed.
    UndoCommit,
    /// Continuing the paused cherry-pick.
    Continue,
    /// Committing a cherry-pick that resolved to nothing.
    CommitEmpty,
    /// The amend after a resumed cherry-pick.
    ResumeAmend,
}

/// What the caller must do next: nothing, or run `op` and hand its reply
/// back with the flow.
#[derive(Debug)]
pub enum Step {
    Done,
    Run(GitOp, Flow),
}

} // verus!

verus! {

/// What a confirmation handler did with a key: nothing (no confirmation is
/// pending), or took it, with the step that follows.
#[derive(Debug)]
pub enum KeyOutcome {
    Ignored,
    Consumed(Step),
}

impl KeyOutcome {
    /// Whether the key was taken.
    pub fn is_consumed(&self) -> (r: bool)
        ensures
            r == (*self is Consumed),
    {
        match self {
            KeyOutcome::Ignored => false,
            KeyOutcome::Consumed(_) => true,
        }
    }
}

} // verus!

