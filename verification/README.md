# Deltarune Drive

A backup manager for Deltarune save files, with a terminal front end (and
the beginnings of a desktop one). The library in `src/` is written in Verus:
its state machines, text editing, path handling and layout arithmetic carry
contracts that Verus proves.

Layout:

- `src/tui/` — the terminal front end's model: the application state and its
  event handling (`app`, `manage_focus`, `popup_models`, `startup`), the
  second-generation state with a backup page (`model::state`), the one-line
  and multi-line text inputs (`my_widgets::input_line`, `input_field`), the
  geometry of the widgets (`layout`, `render`, `my_widgets`), the library's
  model of terminal events (`input`), settings and backups (`conf`,
  `backups`), and properties relating several operations (`laws`).
- `src/desktop_app/` — the desktop front end's settings and backups.
- `src/steam_deltarune.rs` — finding Deltarune's local data directory.
- `src/text.rs` — character-level string helpers (splitting into lines,
  joining paths, UTF-8 offsets) with their laws.
- `src/date.rs` — points in time, read from the clock through `chrono`.
- `app/` — the program: terminal I/O with crossterm and ratatui, the
  settings file with serde, the desktop window with macroquad.
- `tests/` — tests of the library.
