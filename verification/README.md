# TUI Game Station — verified launcher logic

The decision logic of a terminal game launcher (emulator ROMs, native Linux
games, Wine/Proton and Steam titles), written in Verus and proved against its
contracts, with a thin terminal front end around it.

- `src/` — the library: key, controller and mouse dispatch, navigation and
  its guards while a game runs, text fields and their cursors, the game and
  folder forms, emulator and core selectors, scan and download progress,
  media-picker navigation, Wine tools and runners, status lines, and the
  figlet title layout. Laws that relate several calls stand as public
  proof functions in the modules they concern; the others are stated in
  the contracts of the functions themselves.
- `tests/` — concrete scenarios run against the compiled library.
- `app/` — the terminal program: argument parsing, the single-instance
  lock, terminal setup and the event loop that hands key presses to the
  library. It starts with an empty catalogue and launches nothing: the
  database, the scanners, the artwork downloads and the game runner of the
  full launcher are not part of it.
