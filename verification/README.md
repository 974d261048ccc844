# gitp

A terminal dashboard for many git repositories at once: it lists the
repositories under a directory with their status (clean, dirty, ahead,
behind, diverged), runs git or shell commands in the selected repository or
in all of them with the output shown pane by pane, and lists GitHub Actions
runs and pull requests through the `gh` CLI.

Lower-case keys act on the selected repository, upper-case keys on all of
them (`u/U` pull, `f/F` fetch, `l/L` log, `d/D` diff, `c/C` checkout,
`a/A` CI runs, `p/P` pull requests); `↑/↓` or `j/k` move the selection. `gitp DIR` scans `DIR` instead of
the current directory.

## Layout

- `src/` is the library, verified with Verus: parsing of git output,
  repository discovery and status, list ordering, screen texts and layout
  arithmetic, and the dashboard's state machine (`app`), which returns the
  outside work a key asks for as an `Effect`.
- `app/` is the program around it: terminal setup and drawing with
  ratatui, the event loop, and running git and gh with tokio.
- `tests/` exercises the library on concrete values.

The library's contracts state each function's result over spec functions,
and the `law_*` proof functions state the properties that span several
operations.
