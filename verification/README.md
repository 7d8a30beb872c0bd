# gitty

A minimal terminal viewer for git changes: the working tree's staged and
unstaged files on the left, the selected file's diff on the right, with
staging, unstaging, discarding, editing, file-name search, and a read-only
review mode for the changes a revspec names (`gitty master...HEAD`).

The library under `src/` holds every decision the viewer takes and is
verified with Verus; `app/` is the terminal program around it.

## Layout

- `src/git.rs` — file entries, how `git status` flags and tree deltas become
  entries, revspec shapes, patch text, and the repository operations.
- `src/gitffi.rs` — the trusted wrappers around `git2`.
- `src/order.rs` — the order of the file list (section, then path by
  component), and a verified sort.
- `src/search.rs` — smart-case file-name search.
- `src/app.rs` — the viewer's state and every change a key can make to it.
- `src/keys.rs` — which command a key press means, and running it; the
  command line.
- `src/ui.rs` — what the screen shows: list rows, status bar, help, popup
  geometry, colors.
- `src/text.rs` — character-level helpers and the std string calls they use.
- `src/laws.rs` — properties of the viewer as a whole.
- `app/main.rs` — terminal setup, the event loop, drawing with `ratatui`,
  running `$EDITOR` and the `delta` highlighter, deleting discarded
  untracked files.
