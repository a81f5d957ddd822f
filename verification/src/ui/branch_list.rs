use vstd::prelude::*;
use crate::app::{AppState, BulkDeleteState, Flow, PendingDelete, Screen, Step};
use crate::git::{Branch, GitOp};
use crate::keys::{KeyCode, KeyModifiers};
use crate::sets::{strictly_sorted, NameSet};
use crate::text::{contains_sub, embeds, is_subsequence, lowercase, str_contains, str_in_order, to_lowercase, views};

verus! {

// ---------------------------------------------------------------------
// Which branches the list shows
// ---------------------------------------------------------------------

/// Whether a branch is shown, from its lower-cased name and the
/// lower-cased filter (a fuzzy match): the characters of the filter occur
/// in the name in order, not necessarily together, and the branch is not
/// hidden as fully picked (unless all are shown).
pub open spec fn shown_lowered(lower_name: Seq<char>, lower_filter: Seq<char>, show_all: bool, picked: bool) -> bool {
    &&& is_subsequence(lower_filter, lower_name)
    &&& (show_all || !picked)
}

/// A branch is shown when the characters of the lower-cased filter occur in
/// order in its lower-cased name, and it is not hidden as fully picked
/// (unless all are shown).
pub open spec fn shown(b: Branch, filter: Seq<char>, show_all: bool, picked: Set<Seq<char>>) -> bool {
    shown_lowered(lowercase(b.name@), lowercase(filter), show_all, picked.contains(b.name@))
}

/// Decides whether a branch is shown, given its name and the filter
/// already lower-cased, and whether it is fully picked.
pub fn is_shown(lower_name: &str, lower_filter: &str, show_all: bool, picked: bool) -> (r: bool)
    ensures
        r == shown_lowered(lower_name@, lower_filter@, show_all, picked),
{
    str_in_order(lower_filter, lower_name) && (show_all || !picked)
}

/// Positions of the shown branches among the first `n`, in order.
pub open spec fn visible_upto(
    bs: Seq<Branch>,
    filter: Seq<char>,
    show_all: bool,
    picked: Set<Seq<char>>,
    n: int,
) -> Seq<int>
    decreases n,
{
    if n <= 0 {
        seq![]
    } else {
        let r = visible_upto(bs, filter, show_all, picked, n - 1);
        if shown(bs[n - 1], filter, show_all, picked) {
            r.push(n - 1)
        } else {
            r
        }
    }
}

/// Positions, in `state.branches`, of the branches the list shows.
pub open spec fn visible(s: AppState) -> Seq<int> {
    visible_upto(
        s.branches@,
        s.branch_filter@,
        s.show_all_branches,
        s.fully_picked@,
        s.branches@.len() as int,
    )
}

/// The name of the `i`-th shown branch.
pub open spec fn visible_name(s: AppState, i: int) -> Seq<char> {
    s.branches@[visible(s)[i]].name@
}

/// The cursor is on a shown branch, or at 0 when none is.
pub open spec fn cursor_ok(s: AppState) -> bool {
    s.branch_cursor == 0 || s.branch_cursor < visible(s).len()
}

proof fn lemma_visible_upto_bounds(
    bs: Seq<Branch>,
    filter: Seq<char>,
    show_all: bool,
    picked: Set<Seq<char>>,
    n: int,
)
    requires
        0 <= n <= bs.len(),
    ensures
        visible_upto(bs, filter, show_all, picked, n).len() <= n,
        forall|k: int|
            0 <= k < visible_upto(bs, filter, show_all, picked, n).len() ==> 0 <= #[trigger] visible_upto(
                bs,
                filter,
                show_all,
                picked,
                n,
            )[k] < n,
    decreases n,
{
    if n > 0 {
        lemma_visible_upto_bounds(bs, filter, show_all, picked, n - 1);
    }
}

/// The positions `visible(state)` denotes, all within `state.branches`.
pub proof fn lemma_visible_bounds(s: AppState)
    ensures
        visible(s).len() <= s.branches@.len(),
        forall|k: int| 0 <= k < visible(s).len() ==> 0 <= #[trigger] visible(s)[k] < s.branches@.len(),
{
    lemma_visible_upto_bounds(
        s.branches@,
        s.branch_filter@,
        s.show_all_branches,
        s.fully_picked@,
        s.branches@.len() as int,
    );
}

/// Positions of the branches the list shows. With an empty filter, every
/// branch not hidden as fully picked is shown.
pub fn visible_indices(state: &AppState) -> (r: Vec<usize>)
    ensures
        r@.len() == visible(*state).len(),
        forall|k: int| 0 <= k < r@.len() ==> r@[k] as int == #[trigger] visible(*state)[k],
        state.branch_filter@.len() == 0 ==> forall|k: int| 0 <= k < state.branches@.len() ==> #[trigger] shown(
            state.branches@[k],
            state.branch_filter@,
            state.show_all_branches,
            state.fully_picked@,
        ) == (state.show_all_branches || !state.fully_picked@.contains(state.branches@[k].name@)),
{
    let filter = to_lowercase(state.branch_filter.as_str());
    proof {
        if state.branch_filter@.len() == 0 {
            assert forall|x: Seq<char>| is_subsequence(filter@, x) by {
                assert(embeds(Seq::<int>::empty(), filter@, x));
            }
        }
    }
    let n = state.branches.len();
    let mut r: Vec<usize> = Vec::new();
    let mut i: usize = 0;
    while i < n
        invariant
            n == state.branches@.len(),
            i <= n,
            filter@ == lowercase(state.branch_filter@),
            r@.len() == visible_upto(
                state.branches@,
                state.branch_filter@,
                state.show_all_branches,
                state.fully_picked@,
                i as int,
            ).len(),
            forall|k: int|
                0 <= k < r@.len() ==> r@[k] as int == #[trigger] visible_upto(
                    state.branches@,
                    state.branch_filter@,
                    state.show_all_branches,
                    state.fully_picked@,
                    i as int,
                )[k],
        decreases n - i,
    {
        let b = &state.branches[i];
        let name = to_lowercase(b.name.as_str());
        let picked = state.fully_picked.contains(b.name.as_str());
        let keep = is_shown(name.as_str(), filter.as_str(), state.show_all_branches, picked);
        if keep {
            r.push(i);
        }
        i = i + 1;
    }
    r
}

/// The branches the list shows, in order.
pub fn visible_branches(state: &AppState) -> (r: Vec<&Branch>)
    ensures
        r@.len() == visible(*state).len(),
        forall|k: int| 0 <= k < r@.len() ==> *r@[k] == state.branches@[#[trigger] visible(*state)[k]],
        state.branch_filter@.len() == 0 ==> forall|k: int| 0 <= k < state.branches@.len() ==> #[trigger] shown(
            state.branches@[k],
            state.branch_filter@,
            state.show_all_branches,
            state.fully_picked@,
        ) == (state.show_all_branches || !state.fully_picked@.contains(state.branches@[k].name@)),
{
    let idx = visible_indices(state);
    proof {
        lemma_visible_bounds(*state);
    }
    let mut r: Vec<&Branch> = Vec::new();
    let mut k: usize = 0;
    while k < idx.len()
        invariant
            idx@.len() == visible(*state).len(),
            forall|j: int| 0 <= j < idx@.len() ==> idx@[j] as int == #[trigger] visible(*state)[j],
            forall|j: int| 0 <= j < visible(*state).len() ==> 0 <= #[trigger] visible(*state)[j] < state.branches@.len(),
            k <= idx@.len(),
            r@.len() == k,
            forall|j: int| 0 <= j < k ==> *r@[j] == state.branches@[#[trigger] visible(*state)[j]],
        decreases idx@.len() - k,
    {
        assert(visible(*state)[k as int] == idx@[k as int]);
        r.push(&state.branches[idx[k]]);
        k = k + 1;
    }
    r
}

} // verus!

verus! {

// ---------------------------------------------------------------------
// Keys on the branch list
// ---------------------------------------------------------------------

/// The names of the shown branches at positions `a..=b` (either order).
pub open spec fn range_names(s: AppState, a: int, b: int) -> Set<Seq<char>> {
    let lo = if a <= b {
        a
    } else {
        b
    };
    let hi = if a <= b {
        b
    } else {
        a
    };
    Set::new(|x: Seq<char>| exists|i: int| lo <= i <= hi && 0 <= i < visible(s).len() && #[trigger] visible_name(s, i) == x)
}

/// The cursor one row down, when there is a row below.
pub open spec fn cursor_down(s: AppState) -> usize {
    if visible(s).len() > 0 && s.branch_cursor + 1 < visible(s).len() {
        (s.branch_cursor + 1) as usize
    } else {
        s.branch_cursor
    }
}

/// The cursor one row up, stopping at the top.
pub open spec fn cursor_up(s: AppState) -> usize {
    if s.branch_cursor > 0 {
        (s.branch_cursor - 1) as usize
    } else {
        0
    }
}

/// What a key does while the search field is being edited: characters
/// type into the filter, Backspace deletes, Enter keeps the filter, Esc
/// clears it; editing moves the cursor to the top.
pub open spec fn search_key(o: AppState, key: KeyCode, n: AppState) -> bool {
    match key {
        KeyCode::Char(c) => n == (AppState {
            branch_filter: n.branch_filter,
            branch_cursor: 0,
            ..o
        }) && n.branch_filter@ == o.branch_filter@.push(c),
        KeyCode::Backspace => n == (AppState { branch_filter: n.branch_filter, branch_cursor: 0, ..o })
            && n.branch_filter@ == (if o.branch_filter@.len() > 0 {
            o.branch_filter@.drop_last()
        } else {
            o.branch_filter@
        }),
        KeyCode::Enter => n == (AppState { search_active: false, ..o }),
        KeyCode::Esc => n == (AppState {
            branch_filter: n.branch_filter,
            search_active: false,
            branch_cursor: 0,
            ..o
        }) && n.branch_filter@ == Seq::<char>::empty(),
        _ => n == o,
    }
}

/// What a key does on the branch list (search field not active). Any key
/// but Shift+Up/Down ends a range selection.
pub open spec fn list_key(o: AppState, key: KeyCode, m: KeyModifiers, n: AppState, step: Step) -> bool {
    let shift_arrow = m.shift && (key == KeyCode::Down || key == KeyCode::Up);
    let p = AppState { range_anchor: None, ..o };
    let len = visible(o).len();
    let cur = o.branch_cursor;
    if shift_arrow {
        let a = match o.range_anchor {
            Some(x) => x,
            None => cur,
        };
        let to = if key == KeyCode::Down {
            cursor_down(o)
        } else {
            cursor_up(o)
        };
        &&& n == (AppState {
            range_anchor: Some(a),
            branch_cursor: to,
            selected_branches: n.selected_branches,
            ..o
        })
        &&& n.selected_branches@ == o.selected_branches@ + range_names(o, a as int, to as int)
        &&& step is Done
    } else {
        match key {
            KeyCode::Down => n == (AppState { branch_cursor: cursor_down(o), ..p }) && step is Done,
            KeyCode::Up => n == (AppState { branch_cursor: cursor_up(o), ..p }) && step is Done,
            KeyCode::Char('q') => n == (AppState { screen: Screen::Quit, ..p }) && step is Done,
            KeyCode::Delete => {
                &&& step is Done
                &&& if o.selected_branches@ != Set::<Seq<char>>::empty() {
                    &&& n == (AppState {
                        pending_delete: n.pending_delete,
                        last_error: None,
                        ..p
                    })
                    &&& n.pending_delete matches Some(PendingDelete::Bulk(v))
                    &&& views(v@) == o.selected_branches.elems()
                    &&& strictly_sorted(views(v@))
                } else if cur < len {
                    let b = o.branches@[visible(o)[cur as int]];
                    &&& n == (AppState {
                        pending_delete: n.pending_delete,
                        last_error: None,
                        ..p
                    })
                    &&& if b.is_local {
                        n.pending_delete matches Some(PendingDelete::Local(x)) && x@ == b.name@
                    } else {
                        n.pending_delete matches Some(PendingDelete::Remote(x)) && x@ == b.name@
                    }
                } else {
                    n == p
                }
            },
            KeyCode::Char(' ') => {
                &&& step is Done
                &&& n == (AppState {
                    selected_branches: n.selected_branches,
                    branch_cursor: cursor_down(o),
                    ..p
                })
                &&& n.selected_branches@ == if cur < len {
                    let name = visible_name(o, cur as int);
                    if o.selected_branches@.contains(name) {
                        o.selected_branches@.remove(name)
                    } else {
                        o.selected_branches@.insert(name)
                    }
                } else {
                    o.selected_branches@
                }
            },
            KeyCode::Char('/') => n == (AppState { search_active: true, ..p }) && step is Done,
            KeyCode::Char('a') => n == (AppState {
                show_all_branches: !o.show_all_branches,
                branch_cursor: 0,
                ..p
            }) && step is Done,
            KeyCode::Char('p') => if o.push_ahead_count != Some(0usize) {
                &&& n == (AppState { pending_push: true, ..p })
                &&& step matches Step::Run(GitOp::CommitsAheadOfRemoteMaster(b), Flow::PushCount)
                &&& b@ == o.base@
            } else {
                n == p && step is Done
            },
            KeyCode::Enter => if cur < len {
                &&& n == (AppState {
                    selected_branch: n.selected_branch,
                    screen: Screen::CommitList,
                    ..p
                })
                &&& n.selected_branch matches Some(x) && x@ == visible_name(o, cur as int)
                &&& step matches Step::Run(GitOp::ListCommits(b, x), Flow::LoadCommits(y))
                &&& b@ == o.base@
                &&& x@ == visible_name(o, cur as int)
                &&& y@ == visible_name(o, cur as int)
            } else {
                n == p && step is Done
            },
            _ => n == p && step is Done,
        }
    }
}

/// Handles a key on the branch list. The push count and the commits of an
/// opened branch come from git: the step says which command to run.
pub fn handle_key_branch_list(state: &mut AppState, key: KeyCode, modifiers: KeyModifiers) -> (step:
    Step)
    ensures
        old(state).search_active ==> search_key(*old(state), key, *final(state)) && step is Done,
        !old(state).search_active ==> list_key(*old(state), key, modifiers, *final(state), step),
{
    if state.search_active {
        handle_key_search(state, key);
        return Step::Done;
    }
    let ghost o = *state;
    let shift_arrow = modifiers.shift && (key == KeyCode::Down || key == KeyCode::Up);
    if !shift_arrow {
        state.range_anchor = None;
    }
    let vis = visible_indices(state);
    proof {
        lemma_visible_bounds(*state);
    }
    let len = vis.len();
    let cur = state.branch_cursor;
    let down = if len > 0 && cur < len - 1 {
        cur + 1
    } else {
        cur
    };
    let up = if cur > 0 {
        cur - 1
    } else {
        0
    };
    if shift_arrow {
        let anchor = match state.range_anchor {
            Some(a) => a,
            None => cur,
        };
        state.range_anchor = Some(anchor);
        let to = if key == KeyCode::Down {
            down
        } else {
            up
        };
        state.branch_cursor = to;
        let ghost mid = *state;
        assert(visible(mid) == visible(o));
        select_range(state, anchor, to);
        proof {
            assert(mid.branches == o.branches);
            assert forall|i: int| #[trigger] visible_name(mid, i) == visible_name(o, i) by {}
            let a = anchor as int;
            let t = to as int;
            let lo = if a <= t { a } else { t };
            let hi = if a <= t { t } else { a };
            assert forall|x: Seq<char>| range_names(mid, a, t).contains(x) == range_names(o, a, t).contains(x) by {
                if range_names(mid, a, t).contains(x) {
                    let i = choose|i: int| lo <= i <= hi && 0 <= i < visible(mid).len() && #[trigger] visible_name(mid, i) == x;
                    assert(visible_name(o, i) == x);
                }
                if range_names(o, a, t).contains(x) {
                    let i = choose|i: int| lo <= i <= hi && 0 <= i < visible(o).len() && #[trigger] visible_name(o, i) == x;
                    assert(visible_name(mid, i) == x);
                }
            }
            assert(range_names(mid, a, t) =~= range_names(o, a, t));
        }
        return Step::Done;
    }
    match key {
        KeyCode::Down => {
            state.branch_cursor = down;
            Step::Done
        },
        KeyCode::Up => {
            state.branch_cursor = up;
            Step::Done
        },
        KeyCode::Char('q') => {
            state.screen = Screen::Quit;
            Step::Done
        },
        KeyCode::Delete => {
            if !state.selected_branches.is_empty() {
                let names = state.selected_branches.to_vec();
                state.pending_delete = Some(PendingDelete::Bulk(names));
                state.last_error = None;
            } else if cur < len {
                assert(vis@[cur as int] as int == visible(*state)[cur as int]);
                let b = &state.branches[vis[cur]];
                let name = b.name.clone();
                let pending = if b.is_local {
                    PendingDelete::Local(name)
                } else {
                    PendingDelete::Remote(name)
                };
                state.pending_delete = Some(pending);
                state.last_error = None;
            }
            Step::Done
        },
        KeyCode::Char(' ') => {
            if cur < len {
                assert(vis@[cur as int] as int == visible(*state)[cur as int]);
                let name = state.branches[vis[cur]].name.clone();
                let was = state.selected_branches.remove(name.as_str());
                if !was {
                    state.selected_branches.insert(name);
                }
                proof {
                    assert(name@ == visible_name(o, cur as int));
                    if !was {
                        assert(state.selected_branches@ =~= o.selected_branches@.insert(name@));
                    }
                }
            }
            state.branch_cursor = down;
            Step::Done
        },
        KeyCode::Char('/') => {
            state.search_active = true;
            Step::Done
        },
        KeyCode::Char('a') => {
            state.show_all_branches = !state.show_all_branches;
            state.branch_cursor = 0;
            Step::Done
        },
        KeyCode::Char('p') => {
            if state.push_ahead_count != Some(0usize) {
                state.pending_push = true;
                Step::Run(GitOp::CommitsAheadOfRemoteMaster(state.base.clone()), Flow::PushCount)
            } else {
                Step::Done
            }
        },
        KeyCode::Enter => {
            if cur < len {
                assert(vis@[cur as int] as int == visible(*state)[cur as int]);
                let name = state.branches[vis[cur]].name.clone();
                state.selected_branch = Some(name.clone());
                state.screen = Screen::CommitList;
                Step::Run(GitOp::ListCommits(state.base.clone(), name.clone()), Flow::LoadCommits(name))
            } else {
                Step::Done
            }
        },
        _ => Step::Done,
    }
}

/// Adds the names of the shown branches at positions `from..=to` (either
/// order), given those positions `vis`.
fn add_range(state: &mut AppState, vis: &Vec<usize>, from: usize, to: usize)
    requires
        vis@.len() == visible(*old(state)).len(),
        forall|k: int| 0 <= k < vis@.len() ==> vis@[k] as int == #[trigger] visible(*old(state))[k],
        forall|k: int| 0 <= k < vis@.len() ==> 0 <= #[trigger] visible(*old(state))[k] < old(state).branches@.len(),
    ensures
        *final(state) == (AppState { selected_branches: final(state).selected_branches, ..*old(state) }),
        final(state).selected_branches@ == old(state).selected_branches@ + range_names(
            *old(state),
            from as int,
            to as int,
        ),
{
    let ghost o = *state;
    let (lo, hi) = if from <= to {
        (from, to)
    } else {
        (to, from)
    };
    let n = vis.len();
    let mut k: usize = 0;
    while k < n
        invariant
            n == vis@.len(),
            vis@.len() == visible(o).len(),
            forall|j: int| 0 <= j < vis@.len() ==> vis@[j] as int == #[trigger] visible(o)[j],
            forall|j: int| 0 <= j < vis@.len() ==> 0 <= #[trigger] visible(o)[j] < o.branches@.len(),
            k <= n,
            *state == (AppState { selected_branches: state.selected_branches, ..o }),
            state.selected_branches@ == o.selected_branches@ + Set::new(
                |x: Seq<char>|
                    exists|i: int| lo <= i <= hi && 0 <= i < k && #[trigger] visible_name(o, i) == x,
            ),
        decreases n - k,
    {
        let ghost before = state.selected_branches@;
        if lo <= k && k <= hi {
            assert(vis@[k as int] as int == visible(o)[k as int]);
            let name = state.branches[vis[k]].name.clone();
            assert(name@ == visible_name(o, k as int));
            state.selected_branches.insert(name);
        }
        proof {
            let s_new = Set::new(
                |x: Seq<char>|
                    exists|i: int| lo <= i <= hi && 0 <= i < k + 1 && #[trigger] visible_name(o, i) == x,
            );
            let s_old = Set::new(
                |x: Seq<char>|
                    exists|i: int| lo <= i <= hi && 0 <= i < k && #[trigger] visible_name(o, i) == x,
            );
            assert forall|x: Seq<char>| #[trigger] s_new.contains(x) implies (s_old.contains(x) || (lo <= k
                <= hi && x == visible_name(o, k as int))) by {
                let i = choose|i: int| lo <= i <= hi && 0 <= i < k + 1 && #[trigger] visible_name(o, i) == x;
                if i < k {
                    assert(s_old.contains(x));
                }
            }
            assert forall|x: Seq<char>| #[trigger] s_old.contains(x) implies s_new.contains(x) by {
                let i = choose|i: int| lo <= i <= hi && 0 <= i < k && #[trigger] visible_name(o, i) == x;
                assert(lo <= i <= hi && 0 <= i < k + 1 && visible_name(o, i) == x);
            }
            if lo <= k && k <= hi {
                assert(s_new.contains(visible_name(o, k as int)));
            }
            assert(state.selected_branches@ =~= o.selected_branches@ + s_new);
        }
        k = k + 1;
    }
    proof {
        let s_fin = Set::new(
            |x: Seq<char>|
                exists|i: int| lo <= i <= hi && 0 <= i < n && #[trigger] visible_name(o, i) == x,
        );
        assert(s_fin =~= range_names(o, from as int, to as int));
    }
}

/// Adds every shown branch between positions `from` and `to` (inclusive,
/// either order) to the multi-selection, which Shift+Up/Down uses to extend
/// a contiguous range from the anchor to the cursor; nothing else changes.
pub fn select_range(state: &mut AppState, from: usize, to: usize)
    ensures
        *final(state) == (AppState { selected_branches: final(state).selected_branches, ..*old(state) }),
        final(state).selected_branches@ == old(state).selected_branches@ + range_names(
            *old(state),
            from as int,
            to as int,
        ),
{
    let vis = visible_indices(state);
    proof {
        lemma_visible_bounds(*state);
    }
    add_range(state, &vis, from, to);
}

/// Handles a key while the search field (entered with `/`) is active.
fn handle_key_search(state: &mut AppState, key: KeyCode)
    ensures
        search_key(*old(state), key, *final(state)),
{
    match key {
        KeyCode::Char(c) => {
            crate::text::push_char(&mut state.branch_filter, c);
            state.branch_cursor = 0;
        },
        KeyCode::Backspace => {
            crate::text::pop_char(&mut state.branch_filter);
            state.branch_cursor = 0;
        },
        KeyCode::Enter => {
            state.search_active = false;
        },
        KeyCode::Esc => {
            state.branch_filter = String::new();
            state.search_active = false;
            state.branch_cursor = 0;
        },
        _ => {},
    }
}

} // verus!

verus! {

// ---------------------------------------------------------------------
// Deleting branches
// ---------------------------------------------------------------------

/// `bs` without the branches named `x`.
pub open spec fn without_name(bs: Seq<Branch>, x: Seq<char>) -> Seq<Branch> {
    bs.filter(|b: Branch| b.name@ != x)
}

/// The cursor after the shown list shrank to `len` rows: kept when still
/// on a row, else on the last row (or 0).
pub open spec fn clamp_cursor(cur: usize, len: int) -> usize {
    if cur >= len {
        if len > 0 {
            (len - 1) as usize
        } else {
            0
        }
    } else {
        cur
    }
}

/// `n` is `o` after branch `x` was deleted: gone from the list, the cursor
/// kept on a shown row, the error cleared.
pub open spec fn removed_branch(o: AppState, x: Seq<char>, n: AppState) -> bool {
    &&& n == (AppState {
        branches: n.branches,
        branch_cursor: n.branch_cursor,
        last_error: None,
        ..o
    })
    &&& n.branches@ == without_name(o.branches@, x)
    &&& n.branch_cursor == clamp_cursor(o.branch_cursor, visible(n).len() as int)
}

/// Drops branch `name` from the list after it was deleted.
pub fn remove_deleted_branch(state: &mut AppState, name: &str)
    ensures
        removed_branch(*old(state), name@, *final(state)),
        cursor_ok(*final(state)),
{
    let ghost o = *state;
    let ghost pred = |b: Branch| b.name@ != name@;
    let n = state.branches.len();
    let mut kept: Vec<Branch> = Vec::new();
    let mut i: usize = 0;
    while i < n
        invariant
            n == state.branches@.len(),
            *state == o,
            i <= n,
            pred == (|b: Branch| b.name@ != name@),
            kept@ == state.branches@.take(i as int).filter(pred),
        decreases n - i,
    {
        let keep = !crate::sets::str_eq(state.branches[i].name.as_str(), name);
        proof {
            assert(state.branches@.take(i + 1) == state.branches@.take(i as int).push(
                state.branches@[i as int],
            ));
            state.branches@.take(i as int).lemma_filter_push(state.branches@[i as int], pred);
        }
        if keep {
            kept.push(state.branches[i].clone());
        }
        i = i + 1;
    }
    assert(state.branches@.take(n as int) == state.branches@);
    state.branches = kept;
    state.last_error = None;
    let len = visible_indices(state).len();
    if state.branch_cursor >= len {
        state.branch_cursor = if len > 0 {
            len - 1
        } else {
            0
        };
    }
}

/// `origin/foo` names branch `foo` on remote `origin`: the text before and
/// after the first `/`, or remote `origin` when there is none.
pub open spec fn remote_parts(name: Seq<char>) -> (Seq<char>, Seq<char>) {
    match crate::text::split_once(name, '/') {
        Some((r, b)) => (r, b),
        None => ("origin"@, name),
    }
}

/// Splits a remote-tracking name into remote and branch.
pub fn split_remote(name: &str) -> (r: (String, String))
    ensures
        (r.0@, r.1@) == remote_parts(name@),
{
    let v = crate::text::chars_of(name);
    match crate::text::split_once_chars(&v, '/') {
        Some((a, b)) => (crate::text::string_of(&a), crate::text::string_of(&b)),
        None => (String::from_str("origin"), String::from_str(name)),
    }
}

/// The worktree path in git's refusal to delete a branch checked out
/// elsewhere: the text between the last two single quotes, when the
/// message mentions a worktree or a checkout.
pub open spec fn worktree_path(err: Seq<char>) -> Option<Seq<char>> {
    if !contains_sub(err, "worktree"@) && !contains_sub(err, "checked out"@) {
        None
    } else if !crate::text::has_char(err, '\'') {
        None
    } else {
        let end = crate::text::last_index(err, '\'');
        let front = err.subrange(0, end);
        if !crate::text::has_char(front, '\'') {
            None
        } else {
            let start = crate::text::last_index(front, '\'');
            Some(err.subrange(start + 1, end))
        }
    }
}

/// If a `git branch -D` failure was caused by the branch being checked out
/// in another worktree, extracts that worktree's path from git's message.
pub fn parse_worktree_path(err: &str) -> (r: Option<String>)
    ensures
        match (r, worktree_path(err@)) {
            (Some(p), Some(q)) => p@ == q,
            (None, None) => true,
            _ => false,
        },
{
    if !str_contains(err, "worktree") && !str_contains(err, "checked out") {
        return None;
    }
    let v = crate::text::chars_of(err);
    let n = v.len();
    assert(v@.subrange(0, n as int) == v@);
    let end = match crate::text::rfind_char(&v, '\'', n) {
        Some(e) => e,
        None => return None,
    };
    proof {
        crate::text::lemma_last_unique(v@, '\'', end as int);
    }
    let start = match crate::text::rfind_char(&v, '\'', end) {
        Some(s) => s,
        None => return None,
    };
    proof {
        crate::text::lemma_last_unique(v@.subrange(0, end as int), '\'', start as int);
    }
    Some(crate::text::string_of_range(&v, start + 1, end))
}

/// What a key does while a delete confirmation is pending.
pub open spec fn delete_confirm_key(o: AppState, key: KeyCode, n: AppState, r: crate::app::KeyOutcome) -> bool {
    match o.pending_delete {
        None => n == o && r is Ignored,
        Some(pending) => match key {
            KeyCode::Char('y') => match pending {
                PendingDelete::Local(name) => {
                    &&& n == o
                    &&& r matches crate::app::KeyOutcome::Consumed(
                        Step::Run(GitOp::DeleteBranch(x), Flow::DeleteLocal(y)),
                    )
                    &&& x@ == name@
                    &&& y@ == name@
                },
                PendingDelete::Remote(name) => {
                    &&& n == o
                    &&& r matches crate::app::KeyOutcome::Consumed(
                        Step::Run(GitOp::DeleteRemoteBranch(rm, br), Flow::DeleteRemote(y)),
                    )
                    &&& (rm@, br@) == remote_parts(name@)
                    &&& y@ == name@
                },
                PendingDelete::RemoveWorktree { branch, path } => {
                    &&& n == o
                    &&& r matches crate::app::KeyOutcome::Consumed(
                        Step::Run(GitOp::RemoveWorktree(p), Flow::RemoveWorktree(b)),
                    )
                    &&& p@ == path@
                    &&& b@ == branch@
                },
                PendingDelete::Bulk(names) => {
                    &&& n == (AppState { bulk_delete: n.bulk_delete, pending_delete: None, ..o })
                    &&& n.bulk_delete matches Some(bulk) && views(bulk.names@) == views(names@)
                        && bulk.index == 0 && bulk.errors@.len() == 0
                    &&& r matches crate::app::KeyOutcome::Consumed(Step::Done)
                },
            },
            KeyCode::Char('n') | KeyCode::Esc => n == (AppState { pending_delete: None, ..o })
                && r matches crate::app::KeyOutcome::Consumed(Step::Done),
            _ => n == o && r matches crate::app::KeyOutcome::Consumed(Step::Done),
        },
    }
}

fn clone_strings(v: &Vec<String>) -> (r: Vec<String>)
    ensures
        r@ == v@,
{
    let r = v.clone();
    assert forall|k: int| 0 <= k < r@.len() implies r@[k] == v@[k] by {
        assert(cloned::<String>(v[k], r[k]));
    }
    assert(r@ =~= v@);
    r
}

/// Handles a key while a delete confirmation is pending; every key is
/// taken, so the list cannot be navigated mid-prompt. `y` starts the
/// delete (the step runs git), `n`/Esc cancels.
pub fn handle_key_delete_confirm(state: &mut AppState, key: KeyCode) -> (r: crate::app::KeyOutcome)
    ensures
        delete_confirm_key(*old(state), key, *final(state), r),
{
    let step = match &state.pending_delete {
        None => return crate::app::KeyOutcome::Ignored,
        Some(pending) => match key {
            KeyCode::Char('y') => match pending {
                PendingDelete::Local(name) => Step::Run(
                    GitOp::DeleteBranch(name.clone()),
                    Flow::DeleteLocal(name.clone()),
                ),
                PendingDelete::Remote(name) => {
                    let (remote, branch) = split_remote(name.as_str());
                    Step::Run(GitOp::DeleteRemoteBranch(remote, branch), Flow::DeleteRemote(name.clone()))
                },
                PendingDelete::RemoveWorktree { branch, path } => Step::Run(
                    GitOp::RemoveWorktree(path.clone()),
                    Flow::RemoveWorktree(branch.clone()),
                ),
                PendingDelete::Bulk(names) => {
                    let names = clone_strings(names);
                    state.bulk_delete = Some(
                        BulkDeleteState { names, index: 0, errors: Vec::new() },
                    );
                    state.pending_delete = None;
                    Step::Done
                },
            },
            KeyCode::Char('n') | KeyCode::Esc => {
                state.pending_delete = None;
                Step::Done
            },
            _ => Step::Done,
        },
    };
    crate::app::KeyOutcome::Consumed(step)
}

/// The remote already lost the branch: `git push --delete` answered that
/// the remote ref does not exist.
pub open spec fn is_stale_remote(msg: Seq<char>) -> bool {
    contains_sub(msg, "remote ref does not exist"@)
}

} // verus!

verus! {

/// Marks the confirmed delete as done and drops branch `name`.
fn finish_confirmed_delete(state: &mut AppState, name: &str)
    ensures
        removed_branch(AppState { pending_delete: None, ..*old(state) }, name@, *final(state)),
{
    state.pending_delete = None;
    remove_deleted_branch(state, name);
}

/// Reports `msg` and ends the confirmed delete.
fn fail_confirmed_delete(state: &mut AppState, msg: String)
    ensures
        *final(state) == (AppState {
            last_error: final(state).last_error,
            pending_delete: None,
            ..*old(state)
        }),
        final(state).last_error matches Some(e) && e@ == msg@,
{
    state.last_error = Some(msg);
    state.pending_delete = None;
}

/// `n` is `o` with the confirmed delete ended by error text `msg`.
pub open spec fn delete_failed(o: AppState, msg: Seq<char>, n: AppState) -> bool {
    &&& n == (AppState { last_error: n.last_error, pending_delete: None, ..o })
    &&& n.last_error matches Some(e) && e@ == msg
}

/// After `git branch -D` of a confirmed local delete: the branch is
/// dropped; or, when git names a worktree holding it, removing that
/// worktree is offered; or the error is reported.
pub open spec fn after_delete_local_spec(o: AppState, name: Seq<char>, reply: crate::git::GitReply, n: AppState) -> bool {
    match crate::git::failure_text(reply) {
        None => removed_branch(AppState { pending_delete: None, ..o }, name, n),
        Some(msg) => match worktree_path(msg) {
            Some(p) => {
                &&& n == (AppState { pending_delete: n.pending_delete, ..o })
                &&& n.pending_delete matches Some(PendingDelete::RemoveWorktree { branch, path })
                &&& branch@ == name
                &&& path@ == p
            },
            None => delete_failed(o, msg, n),
        },
    }
}

pub fn after_delete_local(state: &mut AppState, name: &String, reply: &crate::git::GitReply)
    ensures
        after_delete_local_spec(*old(state), name@, *reply, *final(state)),
{
    match crate::git::outcome_text(crate::git::delete_branch(&crate::git::command_result(reply))) {
        Ok(()) => finish_confirmed_delete(state, name.as_str()),
        Err(msg) => match parse_worktree_path(msg.as_str()) {
            Some(path) => {
                state.pending_delete = Some(
                    PendingDelete::RemoveWorktree { branch: name.clone(), path },
                );
            },
            None => fail_confirmed_delete(state, msg),
        },
    }
}

/// After `git push --delete` of a confirmed remote delete: the branch is
/// dropped; when the remote no longer had it, its stale tracking ref is
/// pruned first; other errors are reported.
pub open spec fn after_delete_remote_spec(
    o: AppState,
    name: Seq<char>,
    reply: crate::git::GitReply,
    n: AppState,
    step: Step,
) -> bool {
    match crate::git::failure_text(reply) {
        None => removed_branch(AppState { pending_delete: None, ..o }, name, n) && step is Done,
        Some(msg) => if is_stale_remote(msg) {
            &&& n == o
            &&& step matches Step::Run(GitOp::PruneRemoteTrackingRef(x), Flow::PruneStale(y))
            &&& x@ == name
            &&& y@ == name
        } else {
            delete_failed(o, msg, n) && step is Done
        },
    }
}

pub fn after_delete_remote(state: &mut AppState, name: &String, reply: &crate::git::GitReply) -> (step: Step)
    ensures
        after_delete_remote_spec(*old(state), name@, *reply, *final(state), step),
{
    match crate::git::outcome_text(crate::git::delete_remote_branch(&crate::git::command_result(reply))) {
        Ok(()) => {
            finish_confirmed_delete(state, name.as_str());
            Step::Done
        },
        Err(msg) => {
            if str_contains(msg.as_str(), "remote ref does not exist") {
                Step::Run(GitOp::PruneRemoteTrackingRef(name.clone()), Flow::PruneStale(name.clone()))
            } else {
                fail_confirmed_delete(state, msg);
                Step::Done
            }
        },
    }
}

/// After pruning a stale tracking ref: whatever git said, the branch is
/// gone, so it is dropped and the delete counts as done.
pub fn after_prune_stale(state: &mut AppState, name: &String)
    ensures
        removed_branch(AppState { pending_delete: None, ..*old(state) }, name@, *final(state)),
{
    finish_confirmed_delete(state, name.as_str());
}

/// After `git worktree remove`: the branch delete is retried, or the error
/// reported.
pub open spec fn after_remove_worktree_spec(
    o: AppState,
    branch: Seq<char>,
    reply: crate::git::GitReply,
    n: AppState,
    step: Step,
) -> bool {
    match crate::git::failure_text(reply) {
        None => {
            &&& n == o
            &&& step matches Step::Run(GitOp::DeleteBranch(x), Flow::DeleteAfterWorktree(y))
            &&& x@ == branch
            &&& y@ == branch
        },
        Some(msg) => delete_failed(o, msg, n) && step is Done,
    }
}

pub fn after_remove_worktree(state: &mut AppState, branch: &String, reply: &crate::git::GitReply) -> (step: Step)
    ensures
        after_remove_worktree_spec(*old(state), branch@, *reply, *final(state), step),
{
    match crate::git::outcome_text(crate::git::remove_worktree(&crate::git::command_result(reply))) {
        Ok(()) => Step::Run(
            GitOp::DeleteBranch(branch.clone()),
            Flow::DeleteAfterWorktree(branch.clone()),
        ),
        Err(msg) => {
            fail_confirmed_delete(state, msg);
            Step::Done
        },
    }
}

/// After retrying the delete of a branch whose worktree was removed.
pub open spec fn after_delete_after_worktree_spec(
    o: AppState,
    branch: Seq<char>,
    reply: crate::git::GitReply,
    n: AppState,
) -> bool {
    match crate::git::failure_text(reply) {
        None => removed_branch(AppState { pending_delete: None, ..o }, branch, n),
        Some(msg) => delete_failed(o, msg, n),
    }
}

pub fn after_delete_after_worktree(state: &mut AppState, branch: &String, reply: &crate::git::GitReply)
    ensures
        after_delete_after_worktree_spec(*old(state), branch@, *reply, *final(state)),
{
    match crate::git::outcome_text(crate::git::delete_branch(&crate::git::command_result(reply))) {
        Ok(()) => finish_confirmed_delete(state, branch.as_str()),
        Err(msg) => fail_confirmed_delete(state, msg),
    }
}

} // verus!

verus! {

// ---------------------------------------------------------------------
// Bulk delete, one branch per tick
// ---------------------------------------------------------------------

/// Whether the first branch named `x` is local (a name not listed counts
/// as local).
pub open spec fn local_of(bs: Seq<Branch>, x: Seq<char>) -> bool
    decreases bs.len(),
{
    if bs.len() == 0 {
        true
    } else if bs[0].name@ == x {
        bs[0].is_local
    } else {
        local_of(bs.drop_first(), x)
    }
}

fn is_local_branch(bs: &Vec<Branch>, name: &str) -> (r: bool)
    ensures
        r == local_of(bs@, name@),
{
    let n = bs.len();
    let mut i: usize = 0;
    assert(bs@.subrange(0, n as int) == bs@);
    while i < n
        invariant
            n == bs@.len(),
            i <= n,
            local_of(bs@, name@) == local_of(bs@.subrange(i as int, n as int), name@),
        decreases n - i,
    {
        assert(bs@.subrange(i as int, n as int)[0] == bs@[i as int]);
        if crate::sets::str_eq(bs[i].name.as_str(), name) {
            return bs[i].is_local;
        }
        assert(bs@.subrange(i as int, n as int).drop_first() == bs@.subrange(i + 1, n as int));
        i = i + 1;
    }
    true
}

/// The step that deletes the next branch of a bulk delete, if any is left.
pub open spec fn bulk_step_spec(o: AppState, step: Step) -> bool {
    match o.bulk_delete {
        None => step is Done,
        Some(b) => if b.index < b.names@.len() {
            let name = b.names@[b.index as int]@;
            if local_of(o.branches@, name) {
                &&& step matches Step::Run(GitOp::DeleteBranch(x), Flow::BulkLocal(y))
                &&& x@ == name
                &&& y@ == name
            } else {
                &&& step matches Step::Run(GitOp::DeleteRemoteBranch(rm, br), Flow::BulkRemote(y))
                &&& (rm@, br@) == remote_parts(name)
                &&& y@ == name
            }
        } else {
            step is Done
        },
    }
}

/// Starts deleting the next branch of an in-progress bulk delete: local
/// branches with `git branch -D`, remote ones on their remote.
pub fn step_bulk_delete(state: &AppState) -> (step: Step)
    ensures
        bulk_step_spec(*state, step),
{
    let bulk = match &state.bulk_delete {
        Some(b) => b,
        None => return Step::Done,
    };
    if bulk.index >= bulk.names.len() {
        return Step::Done;
    }
    let name = &bulk.names[bulk.index];
    if is_local_branch(&state.branches, name.as_str()) {
        Step::Run(GitOp::DeleteBranch(name.clone()), Flow::BulkLocal(name.clone()))
    } else {
        let (remote, branch) = split_remote(name.as_str());
        Step::Run(GitOp::DeleteRemoteBranch(remote, branch), Flow::BulkRemote(name.clone()))
    }
}

/// `n` is `o` after one branch of a bulk delete was handled: on success the
/// branch is dropped from the list and the selection; on failure
/// `"<name>: <error>"` is recorded. Either way the bulk delete moves on.
pub open spec fn bulk_advanced(o: AppState, name: Seq<char>, err: Option<Seq<char>>, n: AppState) -> bool {
    &&& o.bulk_delete matches Some(ob)
    &&& n.bulk_delete matches Some(nb)
    &&& nb.names == ob.names
    &&& nb.index == ob.index + 1
    &&& match err {
        None => {
            &&& n == (AppState {
                branches: n.branches,
                branch_cursor: n.branch_cursor,
                last_error: None,
                selected_branches: n.selected_branches,
                bulk_delete: n.bulk_delete,
                ..o
            })
            &&& n.branches@ == without_name(o.branches@, name)
            &&& n.branch_cursor == clamp_cursor(o.branch_cursor, visible(n).len() as int)
            &&& n.selected_branches@ == o.selected_branches@.remove(name)
            &&& nb.errors == ob.errors
        },
        Some(e) => {
            &&& n == (AppState { bulk_delete: n.bulk_delete, ..o })
            &&& views(nb.errors@) == views(ob.errors@).push(name + ": "@ + e)
        },
    }
}

fn bulk_record(state: &mut AppState, name: &String, err: Option<String>)
    requires
        old(state).bulk_delete matches Some(b) && b.index < usize::MAX,
    ensures
        bulk_advanced(*old(state), name@, crate::app::opt_view(err), *final(state)),
{
    let ghost o = *state;
    match err {
        None => {
            remove_deleted_branch(state, name.as_str());
            let ghost m = *state;
            state.selected_branches.remove(name.as_str());
            assert(visible(*state) == visible(m));
        },
        Some(e) => {
            let mut line = name.clone();
            line.append(": ");
            line.append(e.as_str());
            match &mut state.bulk_delete {
                Some(b) => {
                    let ghost before = b.errors@;
                    b.errors.push(line);
                    assert(views(b.errors@) =~= views(before).push(name@ + ": "@ + e@));
                },
                None => {},
            }
        },
    }
    match &mut state.bulk_delete {
        Some(b) => {
            b.index = b.index + 1;
        },
        None => {},
    }
}

/// After `git branch -D` of one branch of a bulk delete.
pub fn after_bulk_local(state: &mut AppState, name: &String, reply: &crate::git::GitReply)
    requires
        old(state).bulk_delete matches Some(b) && b.index < usize::MAX,
    ensures
        bulk_advanced(*old(state), name@, crate::git::failure_text(*reply), *final(state)),
{
    let err = match crate::git::outcome_text(crate::git::delete_branch(&crate::git::command_result(reply))) {
        Ok(()) => None,
        Err(m) => Some(m),
    };
    bulk_record(state, name, err);
}

/// After `git push --delete` of one remote branch of a bulk delete; a
/// branch the remote already lost has its stale tracking ref pruned first.
pub open spec fn after_bulk_remote_spec(
    o: AppState,
    name: Seq<char>,
    reply: crate::git::GitReply,
    n: AppState,
    step: Step,
) -> bool {
    match crate::git::failure_text(reply) {
        None => bulk_advanced(o, name, None, n) && step is Done,
        Some(msg) => if is_stale_remote(msg) {
            &&& n == o
            &&& step matches Step::Run(GitOp::PruneRemoteTrackingRef(x), Flow::BulkPrune(y))
            &&& x@ == name
            &&& y@ == name
        } else {
            bulk_advanced(o, name, Some(msg), n) && step is Done
        },
    }
}

pub fn after_bulk_remote(state: &mut AppState, name: &String, reply: &crate::git::GitReply) -> (step: Step)
    requires
        old(state).bulk_delete matches Some(b) && b.index < usize::MAX,
    ensures
        after_bulk_remote_spec(*old(state), name@, *reply, *final(state), step),
{
    match crate::git::outcome_text(crate::git::delete_remote_branch(&crate::git::command_result(reply))) {
        Ok(()) => {
            bulk_record(state, name, None);
            Step::Done
        },
        Err(msg) => {
            if str_contains(msg.as_str(), "remote ref does not exist") {
                Step::Run(GitOp::PruneRemoteTrackingRef(name.clone()), Flow::BulkPrune(name.clone()))
            } else {
                bulk_record(state, name, Some(msg));
                Step::Done
            }
        },
    }
}

/// After pruning the stale tracking ref of a bulk-deleted branch: it counts
/// as deleted.
pub fn after_bulk_prune(state: &mut AppState, name: &String)
    requires
        old(state).bulk_delete matches Some(b) && b.index < usize::MAX,
    ensures
        bulk_advanced(*old(state), name@, None, *final(state)),
{
    bulk_record(state, name, None);
}

/// Finalizes a bulk delete once every branch has been processed: reports
/// the per-branch errors, joined by `; `, and clears the in-progress state.
pub fn finish_bulk_delete(state: &mut AppState)
    ensures
        match old(state).bulk_delete {
            Some(b) if b.errors@.len() > 0 => {
                &&& *final(state) == (AppState {
                    bulk_delete: None,
                    last_error: final(state).last_error,
                    ..*old(state)
                })
                &&& final(state).last_error matches Some(e) && e@ == crate::text::join(
                    views(b.errors@),
                    "; "@,
                )
            },
            _ => *final(state) == (AppState { bulk_delete: None, ..*old(state) }),
        },
{
    let taken = state.bulk_delete.take();
    if let Some(bulk) = taken {
        if bulk.errors.len() > 0 {
            state.last_error = Some(crate::text::join_strings(&bulk.errors, "; "));
        }
    }
}

/// The spinner frame shown after `n` processed branches.
pub open spec fn spinner_spec(n: nat) -> Seq<char> {
    let k = n % 10;
    if k == 0 {
        "\u{280b}"@
    } else if k == 1 {
        "\u{2819}"@
    } else if k == 2 {
        "\u{2839}"@
    } else if k == 3 {
        "\u{2838}"@
    } else if k == 4 {
        "\u{283c}"@
    } else if k == 5 {
        "\u{2834}"@
    } else if k == 6 {
        "\u{2826}"@
    } else if k == 7 {
        "\u{2827}"@
    } else if k == 8 {
        "\u{2807}"@
    } else {
        "\u{280f}"@
    }
}

/// A braille spinner frame that advances with `n`.
pub fn spinner_frame(n: usize) -> (r: String)
    ensures
        r@ == spinner_spec(n as nat),
{
    let k = n % 10;
    let s = if k == 0 {
        "\u{280b}"
    } else if k == 1 {
        "\u{2819}"
    } else if k == 2 {
        "\u{2839}"
    } else if k == 3 {
        "\u{2838}"
    } else if k == 4 {
        "\u{283c}"
    } else if k == 5 {
        "\u{2834}"
    } else if k == 6 {
        "\u{2826}"
    } else if k == 7 {
        "\u{2827}"
    } else if k == 8 {
        "\u{2807}"
    } else {
        "\u{280f}"
    };
    String::from_str(s)
}

/// Footer text for an in-progress bulk delete: spinner, position, and the
/// branch being deleted.
pub open spec fn bulk_progress_spec(b: BulkDeleteState) -> Seq<char> {
    let current = if b.index < b.names@.len() {
        b.names@[b.index as int]@
    } else {
        Seq::<char>::empty()
    };
    spinner_spec(b.index as nat) + " Deleting "@ + crate::text::decimal((b.index + 1) as nat) + "/"@
        + crate::text::decimal(b.names@.len()) + "\u{2026} ("@ + current + ")"@
}

pub fn bulk_delete_progress_text(bulk: &BulkDeleteState) -> (r: String)
    requires
        bulk.index < usize::MAX,
    ensures
        r@ == bulk_progress_spec(*bulk),
{
    let mut s = spinner_frame(bulk.index);
    s.append(" Deleting ");
    crate::text::push_decimal(&mut s, bulk.index + 1);
    s.append("/");
    crate::text::push_decimal(&mut s, bulk.names.len());
    s.append("\u{2026} (");
    if bulk.index < bulk.names.len() {
        s.append(bulk.names[bulk.index].as_str());
    }
    s.append(")");
    proof {
        if bulk.index >= bulk.names@.len() {
            assert(s@ == bulk_progress_spec(*bulk));
        }
    }
    s
}

} // verus!

verus! {

// ---------------------------------------------------------------------
// Pushing base to origin/master
// ---------------------------------------------------------------------

/// What `rev-list --count` reported, when it ran and answered a number.
pub open spec fn ahead_count(reply: crate::git::GitReply) -> Option<usize> {
    match crate::git::command_result_spec(reply) {
        Ok(out) => match crate::text::parse_usize_spec(out) {
            Some(k) => Some(k as usize),
            None => None,
        },
        Err(_) => None,
    }
}

fn ahead_count_of(reply: &crate::git::GitReply) -> (r: Option<usize>)
    ensures
        r == ahead_count(*reply),
{
    let res = crate::git::command_result(reply);
    match crate::git::commits_ahead_of_remote_master(&res) {
        Ok(k) => Some(k),
        Err(_) => None,
    }
}

/// Stores how many commits a push would land, for the confirmation prompt.
pub fn after_push_count(state: &mut AppState, reply: &crate::git::GitReply)
    ensures
        *final(state) == (AppState { pending_push_count: ahead_count(*reply), ..*old(state) }),
{
    state.pending_push_count = ahead_count_of(reply);
}

/// What a key does while a push confirmation is pending.
pub open spec fn push_confirm_key(o: AppState, key: KeyCode, n: AppState, r: crate::app::KeyOutcome) -> bool {
    if !o.pending_push {
        n == o && r is Ignored
    } else {
        match key {
            KeyCode::Char('y') => {
                &&& n == o
                &&& r matches crate::app::KeyOutcome::Consumed(Step::Run(GitOp::PushToMaster(b), Flow::Push))
                &&& b@ == o.base@
            },
            KeyCode::Char('n') | KeyCode::Esc => n == (AppState {
                pending_push: false,
                pending_push_count: None,
                ..o
            }) && r matches crate::app::KeyOutcome::Consumed(Step::Done),
            _ => n == o && r matches crate::app::KeyOutcome::Consumed(Step::Done),
        }
    }
}

/// Handles a key while a push confirmation is pending: `y` pushes (the
/// step runs git), `n`/Esc cancels; every key is taken.
pub fn handle_key_push_confirm(state: &mut AppState, key: KeyCode) -> (r: crate::app::KeyOutcome)
    ensures
        push_confirm_key(*old(state), key, *final(state), r),
{
    if !state.pending_push {
        return crate::app::KeyOutcome::Ignored;
    }
    let step = match key {
        KeyCode::Char('y') => Step::Run(GitOp::PushToMaster(state.base.clone()), Flow::Push),
        KeyCode::Char('n') | KeyCode::Esc => {
            state.pending_push = false;
            state.pending_push_count = None;
            Step::Done
        },
        _ => Step::Done,
    };
    crate::app::KeyOutcome::Consumed(step)
}

/// After the push: the confirmation ends; on success the error clears and
/// the ahead-count is refreshed, on failure the error is shown.
pub open spec fn after_push_spec(o: AppState, reply: crate::git::GitReply, n: AppState, step: Step) -> bool {
    match crate::git::failure_text(reply) {
        None => {
            &&& n == (AppState {
                pending_push: false,
                pending_push_count: None,
                last_error: None,
                ..o
            })
            &&& step matches Step::Run(GitOp::CommitsAheadOfRemoteMaster(b), Flow::PushRefresh)
            &&& b@ == o.base@
        },
        Some(msg) => {
            &&& n == (AppState {
                pending_push: false,
                pending_push_count: None,
                last_error: n.last_error,
                ..o
            })
            &&& n.last_error matches Some(e) && e@ == msg
            &&& step is Done
        },
    }
}

pub fn after_push(state: &mut AppState, reply: &crate::git::GitReply) -> (step: Step)
    ensures
        after_push_spec(*old(state), *reply, *final(state), step),
{
    state.pending_push = false;
    state.pending_push_count = None;
    match crate::git::outcome_text(crate::git::push_to_master(&crate::git::command_result(reply))) {
        Ok(()) => {
            state.last_error = None;
            Step::Run(GitOp::CommitsAheadOfRemoteMaster(state.base.clone()), Flow::PushRefresh)
        },
        Err(msg) => {
            state.last_error = Some(msg);
            Step::Done
        },
    }
}

/// Stores the ahead-count after a push (which hides `p` once it is 0).
pub fn after_push_refresh(state: &mut AppState, reply: &crate::git::GitReply)
    ensures
        *final(state) == (AppState { push_ahead_count: ahead_count(*reply), ..*old(state) }),
{
    state.push_ahead_count = ahead_count_of(reply);
}

/// Prompt text for the footer while a push confirmation is pending.
pub open spec fn push_prompt_spec(base: Seq<char>, count: Option<usize>) -> Seq<char> {
    match count {
        Some(k) => if k == 1 {
            "Push '"@ + base + "' to origin/master (1 commit)? y/n"@
        } else {
            "Push '"@ + base + "' to origin/master ("@ + crate::text::decimal(k as nat)
                + " commits)? y/n"@
        },
        None => "Push '"@ + base + "' to origin/master? y/n"@,
    }
}

pub fn push_confirm_prompt(state: &AppState) -> (r: String)
    ensures
        r@ == push_prompt_spec(state.base@, state.pending_push_count),
{
    let mut s = String::from_str("Push '");
    s.append(state.base.as_str());
    match state.pending_push_count {
        Some(k) => {
            if k == 1 {
                s.append("' to origin/master (1 commit)? y/n");
            } else {
                s.append("' to origin/master (");
                crate::text::push_decimal(&mut s, k);
                s.append(" commits)? y/n");
            }
        },
        None => {
            s.append("' to origin/master? y/n");
        },
    }
    s
}

// ---------------------------------------------------------------------
// Opening a branch
// ---------------------------------------------------------------------

/// After `git log` of the opened branch: its commits are shown (none, with
/// the error reported, when git failed). When they were listed, `git cherry`
/// of the branch runs next, to drop those that would land as empty picks.
pub open spec fn after_load_commits_spec(
    o: AppState,
    branch: Seq<char>,
    reply: crate::git::GitReply,
    n: AppState,
    step: Step,
) -> bool {
    &&& n == (AppState {
        commits: n.commits,
        commit_cursor: 0,
        selected: n.selected,
        last_error: n.last_error,
        ..o
    })
    &&& n.selected@ == Set::<usize>::empty()
    &&& match crate::git::command_result_spec(reply) {
        Ok(out) => {
            &&& n.last_error is None
            &&& crate::git::commit_views(n.commits@) == crate::git::commits_of_lines(crate::text::lines(out))
            &&& step matches Step::Run(GitOp::Cherry(b, x), Flow::DropEmptyPicks)
            &&& b@ == o.base@
            &&& x@ == branch
        },
        Err(_) => {
            &&& n.last_error matches Some(e) && Some(e@) == crate::git::failure_text(reply)
            &&& n.commits@.len() == 0
            &&& step is Done
        },
    }
}

pub fn after_load_commits(state: &mut AppState, branch: &String, reply: &crate::git::GitReply) -> (step: Step)
    ensures
        after_load_commits_spec(*old(state), branch@, *reply, *final(state), step),
{
    let res = crate::git::command_result(reply);
    match crate::git::list_commits(&res) {
        Ok(cs) => {
            state.last_error = None;
            state.load_commits(cs);
            Step::Run(GitOp::Cherry(state.base.clone(), branch.clone()), Flow::DropEmptyPicks)
        },
        Err(e) => {
            state.last_error = Some(e.message());
            state.load_commits(Vec::new());
            Step::Done
        },
    }
}

/// After `git cherry` of the opened branch: the commits it marks as already
/// on the base (they would land as empty picks) are dropped from the list,
/// the others kept in order, with the cursor on the first and nothing
/// selected. When `git cherry` failed, the list stays as it is.
pub open spec fn after_drop_empty_picks_spec(o: AppState, reply: crate::git::GitReply, n: AppState) -> bool {
    match crate::git::command_result_spec(reply) {
        Ok(out) => {
            &&& n == (AppState { commits: n.commits, commit_cursor: 0, selected: n.selected, ..o })
            &&& n.selected@ == Set::<usize>::empty()
            &&& n.commits@ == crate::git::without_empty_picks(
                o.commits@,
                crate::git::cherry_empty_shas(crate::text::lines(out)),
            )
        },
        Err(_) => n == o,
    }
}

pub fn after_drop_empty_picks(state: &mut AppState, reply: &crate::git::GitReply)
    ensures
        after_drop_empty_picks_spec(*old(state), *reply, *final(state)),
{
    let res = crate::git::command_result(reply);
    match crate::git::empty_pick_shas(&res) {
        Ok(empty) => {
            let kept = crate::git::drop_empty_picks(&state.commits, &empty);
            state.load_commits(kept);
        },
        Err(_) => {},
    }
}

// ---------------------------------------------------------------------
// Texts
// ---------------------------------------------------------------------

/// Prompt text for the footer while a delete confirmation is pending.
pub open spec fn confirm_prompt_spec(p: PendingDelete) -> Seq<char> {
    match p {
        PendingDelete::Local(name) => "Delete local branch '"@ + name@ + "'? y/n"@,
        PendingDelete::Remote(name) => "Delete REMOTE branch '"@ + name@ + "' (affects origin)? y/n"@,
        PendingDelete::RemoveWorktree { branch, path } => "'"@ + branch@ + "' is checked out at '"@
            + path@ + "'. Remove that worktree and retry delete? y/n"@,
        PendingDelete::Bulk(names) => "Delete "@ + crate::text::decimal(names@.len()) + " branches ("@
            + crate::text::join(views(names@), ", "@) + ")? y/n"@,
    }
}

pub fn confirm_prompt(pending: &PendingDelete) -> (r: String)
    ensures
        r@ == confirm_prompt_spec(*pending),
{
    match pending {
        PendingDelete::Local(name) => {
            let mut s = String::from_str("Delete local branch '");
            s.append(name.as_str());
            s.append("'? y/n");
            s
        },
        PendingDelete::Remote(name) => {
            let mut s = String::from_str("Delete REMOTE branch '");
            s.append(name.as_str());
            s.append("' (affects origin)? y/n");
            s
        },
        PendingDelete::RemoveWorktree { branch, path } => {
            let mut s = String::from_str("'");
            s.append(branch.as_str());
            s.append("' is checked out at '");
            s.append(path.as_str());
            s.append("'. Remove that worktree and retry delete? y/n");
            s
        },
        PendingDelete::Bulk(names) => {
            let mut s = String::from_str("Delete ");
            crate::text::push_decimal(&mut s, names.len());
            s.append(" branches (");
            let joined = crate::text::join_strings(names, ", ");
            s.append(joined.as_str());
            s.append(")? y/n");
            s
        },
    }
}

/// Title for the branch list panel: the shown count and base, the search
/// text (with a cursor while typing), and whether all branches are shown.
pub open spec fn title_spec(s: AppState, count: nat) -> Seq<char> {
    let head = "Branches ("@ + crate::text::decimal(count) + ") (base: "@ + s.base@ + ")"@;
    let search = if s.search_active {
        ", search: "@ + s.branch_filter@ + "\u{2588}"@
    } else if s.branch_filter@.len() > 0 {
        ", search: "@ + s.branch_filter@
    } else {
        Seq::<char>::empty()
    };
    let all = if s.show_all_branches {
        ", showing all"@
    } else {
        Seq::<char>::empty()
    };
    head + search + all
}

pub fn branch_list_title(state: &AppState, visible_count: usize) -> (r: String)
    ensures
        r@ == title_spec(*state, visible_count as nat),
{
    let mut t = String::from_str("Branches (");
    crate::text::push_decimal(&mut t, visible_count);
    t.append(") (base: ");
    t.append(state.base.as_str());
    t.append(")");
    let ghost head = t@;
    if state.search_active {
        t.append(", search: ");
        t.append(state.branch_filter.as_str());
        t.append("\u{2588}");
    } else if state.branch_filter.unicode_len() > 0 {
        t.append(", search: ");
        t.append(state.branch_filter.as_str());
    }
    let ghost mid = t@;
    if state.show_all_branches {
        t.append(", showing all");
    }
    proof {
        if !state.search_active && state.branch_filter@.len() == 0 {
            assert(mid == head + Seq::<char>::empty());
        }
        if !state.show_all_branches {
            assert(t@ == mid + Seq::<char>::empty());
        }
    }
    t
}

} // verus!
