# voicefox

A terminal music player's library, verified with Verus: the play queue and
its modes, key bindings and their migration, the user's favourites, custom
playlists and history, playlist import (M3U and JSON exports), download
file naming, the synchronisation of playlists with an account (matching,
planning, previews and runs), and the input handling and text layout of the
player's pages.

Layout:

- `src/` — the verified library. Each module states its behaviour in
  `requires`/`ensures` over spec functions and proves it; calls into
  `unicode-width`, `ratatui`'s layout solver and `serde_json` go through
  small trusted wrappers whose contracts say what those crates return.
- `tests/` — tests of the library on concrete values.
- `app/` — the program around the library: command line, files on disk,
  JSON records, cover images, terminal input conversion, and the parts that
  compute with floating-point numbers.
