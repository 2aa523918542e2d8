# git-tailor, verified core

git-tailor is a terminal tool for reshaping the commits of a branch: squash,
fixup, move, drop, reword and split commits, with undo and redo. This crate
holds the parts of it that decide things, written in Verus and proved
against their contracts:

- `app`, `views::*` — the state of the interface and what every key does in
  each view and dialog (navigation, pickers, confirmations, the operation
  menu, search within the commit detail view, list and pane layout).
- `autofixup` — grouping `fixup!`/`squash!` commits by target, the messages
  they produce, and where the selection lands after a batch.
- `patch` — splitting file content into lines and applying diff hunks.
- `journal` — the undo/redo stacks, the tips they pin, and how a journal
  document is read.
- `rewrite` — the replay order when a commit is moved.
- `commit_message` — the messages of split commits.
- `palette`, `theme` — colors, color schemes and fragmap rendering roles.
- `update_check` — what the crates.io answer means, and a non-blocking
  poller for a background check.
- `dispatch` — what the main loop does with the repository's answers, and
  which requests it makes of it (uncommitted work is stashed before every
  rewrite and re-applied after it).
- `static_views::fragmap` — the hunk-group matrix printed as text.
- `edit`, `squash`, `split_plan` — the decisions of finishing an edit,
  squashing across renames, and splitting a commit per hunk group.
- `pattern` — regular-expression search patterns (the `regex` crate).

`app/` is a small command-line front end around the library: the crates.io
request, the version cache file, color-scheme files and the terminal's
background escape sequence.
