# shPlank

A small forum that lives in the terminal: you reach it with `ssh -p 2222`,
read posts and their comments, and write your own. Your SSH key is your
identity; the first time a key connects it picks a display name.

## Layout

- `src/` — the verified library (Verus):
  - `session.rs` — the per-connection state machine: screens, keystrokes,
    and the answers from the database. Each step returns the outside work
    to do next (`Action`).
  - `laws.rs` — properties that span keystrokes and screens.
  - `screens.rs` — what each screen shows (text lines, emphasis, sidebar).
  - `layout.rs` — sidebar and modal placement, using ratatui's layout solver.
  - `text.rs` — keystroke editing, blank checks, line splitting, numbers.
  - `records.rs`, `seed.rs`, `server.rs` — stored records, starter content,
    connection numbering.
- `app/` — the program around it: the russh SSH server, SQLite through sqlx,
  and drawing with ratatui. It performs what the session asks for and
  reports the outcome back.
- `tests/` — tests of the library.

Set `SHPLANK_ADMIN_FINGERPRINT` to the `SHA256:...` fingerprint of the key
that may delete posts.
