# vs_git_ui

A source control side panel in the manner of VS Code, and side-by-side diff views, for a text
editor. The model is verified with Verus: what is listed where, what a click or a loaded page
changes, where the spacer blocks go that keep the two sides of a diff aligned.

- `src/` is the model. It holds no handles of the editor and does no I/O: it takes what was
  read and returns what to show or what to ask for next. Every function that returns or
  changes something has a contract.
  - `model`, `text`: plain values, and small functions on text.
  - `entries`, `vs_git_panel`, `panel_view`: the rows, the state and the views of the panel.
  - `alignment`, `vs_file_diff_view`, `vs_commit_diff_view`, `scroll_sync`: the diff views.
  - `vs_diff_toolbar`, `vs_git_panel_settings`, `repositories`, `context_server_store`,
    `settings_pages`: the smaller parts.
  - `alignment_laws`, `entry_laws`, `panel_laws`: what holds across functions. The main one
    is `law_line_diffs_are_aligned`: unchanged rows stand side by side.
- `tests/` runs the model on concrete values.
- `app/` binds the model to the editor: elements, subscriptions, tasks and conversions.
