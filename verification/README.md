# herdr-sidebar

The launcher of a sidebar for the herdr terminal multiplexer, and the git widgets
that the sidebar shows: a branch picker and a footer.

- `src/` is the library. Verus checks its functions against their contracts. What
  is not checked but believed are the contracts of the wrappers and declarations
  that stand for functions and types of std, `serde_json` and `ratatui`; each says
  in its comment what it claims.
  - `run`, `open`, `repair` and `sidebar_tab` decide what the launcher does, one
    step at a time; `run_laws` and `open_laws` hold what is proved of every run
    and every opening.
  - `activity`, `panes`, `request` and `event` are what they speak of: modes and
    targets, the host's panes and tabs, requests to the host, and answers.
  - `picker` and `footer` lay out the widgets; `geometry` and `text` serve them.
  - `json` is the boundary to `serde_json`.
- `tests/` runs the library.
- `app/` performs the steps: the socket, the lock file, the environment, the
  terminal.
