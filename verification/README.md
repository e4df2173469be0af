# vibetree

A terminal workspace for working on several git worktrees of one project at
once: a sidebar lists the worktrees, each worktree gets its own shell, and a
portal panel collects what the terminal output mentions (URLs, local servers,
application launches, build errors, file activity).

The decisions of the program are a library verified with Verus (`src/`);
the window, GPU, terminal emulator, processes and X11 calls are ordinary
Rust around it (`app/`).

## Library modules (`src/`)

- `text`: character-level string functions (`str::lines`,
  `split_whitespace`, trimming, searching) with their specifications.
- `git_parser`: parsers for `git worktree list --porcelain` and
  `git status --porcelain=v1`.
- `git_commands`: the arguments of each git command and what its outcome
  means (errors, warnings, new worktree paths).
- `portal`: detection of URLs, `localhost` ports, application launches,
  build messages and file activity in terminal output.
- `panels`: what the worktree and portal panels show and ask for.
- `app_state`: the application state machine (project, worktrees,
  selection, terminals, dialogs, sidebar).
- `renderer`: the terminal frame plan (rows, colours, content hash, URLs,
  screen slots, scrolled split view, cursor blink).
- `terminal`: visible text, selection sides and key sequences.
- `colors`: the 256-colour palette and the UI themes.
- `grid`: the split tree of terminals.
- `embed`: finding external windows and placing them over the portal.
- `pty`: the table of PTY sessions and their exit events.
- `config`, `types`: settings and shared data types.

Each module states its laws as public proof functions (`law_*`).

## Verifying and testing

Verus verifies the library from `src/lib.rs`; the tests in `tests/` run
it with the outside crates linked.
