# course_pilot

The core of a course planner: courses imported from playlists or video
folders, study plans and their progress, notes with Markdown export, a focus
timer, and the overviews of the dashboard. Verus checks every function of
the library in `src/`; each one that returns or changes something carries a
contract that says what, and Verus proves it.

Layout:

- `src/` — the verified library. Values from `chrono`, `uuid`, `serde_json`
  and `markdown` come in through a small set of trusted wrappers whose
  contracts say what those crates return.
- `tests/` — tests of the library on concrete values.
- `app/` — a small command-line program around the library: the settings
  file, the schema migrations and the SQLite notes table, the folder walk,
  the timer's clock and the figures computed in floating point.
