# SPT Modpack Updater

A terminal program that keeps an SPT (Single Player Tarkov) modpack in sync
with a git remote: first install and update (`UPDATE`), restoring the
BepInEx configuration from its backup (`REPAIR`), and switching branches
(`BRANCH`). Two BepInEx configuration files survive every reset; the program
refuses to run outside an SPT installation; Esc during an operation asks
before quitting.

## Layout

- `src/` — the library, verified with Verus. It decides everything and
  touches nothing: no disk, no network, no git, no terminal.
  - `text.rs` — character-level helpers (trimming, searching, `u64`/`u32`
    parsing as `str::parse` does, decimal printing).
  - `types.rs`, `progress.rs` — the update status and the events that
    operations report.
  - `git.rs` — reading git's output: progress lines, stderr lines, the branch
    list of `git ls-remote --heads`; the progress bar's share per phase; the
    protected files.
  - `jobs.rs` — the operations (check, update, repair, branch list) as state
    machines: each step takes the outcome of the last command and names the
    events to report and the next command.
  - `tui.rs` — the interface's state and what key presses and events do to it.
  - `screen.rs` — what the interface shows: texts, highlights, colours.
  - `updater.rs` — version comparison and the choice of the release to
    install; `spt.rs`, `launch.rs`, `manifest.rs` — the remaining decisions.
  - `laws.rs` — properties of the whole, proved over the specifications.
- `app/` — the program around the library: it runs git and the file
  operations that jobs ask for, reads the game folder and the network, and
  draws the terminal with ratatui.
- `tests/` — tests of the library on concrete values.

## Configuration

The remote and the default branch are set when building, through the
environment variables `SPT_UPDATER_REMOTE` and `SPT_UPDATER_BRANCH`.
