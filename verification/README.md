# Aella

A grammar checker for the command line and the desktop, whose decisions are
verified with Verus.

## Layout

- `src/` — the verified library (`aella`):
  - `lint`, `correction`, `correction_laws`: lints and suggestions, and the
    correction run that applies the grammar checker's suggestions pass by pass
    (one suggestion per exact span, applied from the end of the text towards its
    start, at most eight passes), with the properties that every run keeps.
  - `cli`, `diff`, `records`: what the command line tool prints and stores —
    run metrics, the line diff, the history table, rows read back from storage.
  - `desktop`, `desktop_laws`, `keys`, `sidebar`, `issues_panel`, `editor_view`, `highlight`,
    `highlight_laws`, `ui_text`: the desktop editor as a state machine from
    messages to state and effects, its shortcuts, sidebar search, issues panel,
    lint highlights, badges and previews.
  - `text`: conversions between strings and characters.
- `tests/` — tests of the library.
- `app/` — the programs around the library: the command line tool
  (`cli::run`), the desktop window (`desktop::run`, built with iced), the
  grammar checker (harper), the local store (turso) and the layout preferences.
