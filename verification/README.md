# dnd_tools

Tools for running a tabletop role-playing session: character sheets, an
initiative tracker, a combat tracker (damage, temporary hit points, status
effects, saving throws), dice with pictures, NPC and encounter generators, and
a search of the D&D 5e wiki with a local page cache. There is a full-screen
interface and a line-by-line one to fall back on.

## Layout

- `src/` — the library, verified with Verus. Each public function states what
  it returns or changes in its `ensures`; laws that relate several functions
  are public proof functions (`law_*`).
  - `character`, `stat_map`, `completion` — character sheets, their flat and
    keyed forms, and completing a sheet's missing statistics.
  - `combat`, `combat_view`, `order`, `initiative` — the trackers and what
    they print.
  - `dice`, `races_classes`, `encounter`, `events`, `error_handling`.
  - `search`, `search_flow`, `search_view` — wiki pages: addresses, cache
    records, turning HTML into text, showing a page, and the search itself
    as a state machine (cache first, then each address, then variations of
    the query) whose reading, requests and writing the program performs.
  - `tui`, `tui_combat`, `tui_search`, `tui_view` — the full-screen
    interface as a state machine over key presses.
  - `cli`, `cli_combat`, `cli_search` — the line-by-line interface, one
    typed line at a time, with the fallback to suggestions after a search.
  - `text`, `words` — the string operations the rest is stated with.
- `app/` — the program: terminal drawing, reading lines, files, the network,
  and the parts that compute with fractional challenge ratings.
- `tests/` — tests of the library.
