# gpick

gpick is a terminal UI for cherry-picking commits from other branches onto a
base branch: pick a branch, tick the commits, and gpick cherry-picks them in
commit order, re-authoring and signing off each one, then goes straight back
to the branch list. Commits that would land as empty picks are left off the
commit list. Conflicts pause the run until they are resolved (continue) or
given up (abort). Branches can also be fuzzy-searched, multi-selected and
deleted (locally or on their remote), and the base can be pushed to
`origin/master`.

## Layout

- `src/` is the verified library (Verus). It holds every decision gpick
  makes, with contracts:
  - `git.rs`: the git commands as values (`GitOp`), and the functions that
    read what git answered (branch and commit listings, `git cherry`,
    counts, base detection, cherry-pick outcomes).
  - `app.rs`: the application state and the steps and flows that tie a
    key press to the git commands it needs.
  - `ui/`: one module per screen (branch list, commit list, execution,
    conflict pause), the footer and header texts, and `run.rs`, which
    dispatches keys, git's replies and the work done between keys.
  - `sets.rs`, `text.rs`: sorted sets of names and indices, and the string
    handling the parsers use.
  - `laws.rs`: properties that span several operations.
- `tests/`: tests of the library, driven with the replies git would give.
- `app/`: the program itself: it runs git, reads keys and draws with
  ratatui; each git command it runs is one the library asked for.
