# youtuber

A terminal client that searches YouTube and plays the chosen video with mpv
or IINA.

- `src/` is the verified library (Verus): the screens and the key handling
  (`app.rs`), the search and launch steps, the result list and its `Debug`
  listing (`results.rs`), thumbnails (`thumbnail.rs`), the highlighted row
  (`selection.rs`), the player choice (`player.rs`), the status bar texts
  (`state.rs`) and the trusted text operations of std (`text.rs`).
- `app/` is the program around it: configuration file, terminal, drawing,
  network requests and the player process.
- `tests/` runs the library on concrete inputs.
