# weatherman-core

Weather logic for a terminal weather app, written in Verus. Every function
in `src/` carries a contract; Verus proves all of them except the small
wrappers marked `#[verifier::external_body]`, whose contracts state what the
std and `chrono`/`urlencoding` functions they call do and are trusted.

## Layout

- `src/types.rs` — conditions, detail levels, locations and forecasts.
  Measurements are kept in tenths (probabilities in hundredths) and
  instants as Unix seconds.
- `src/text.rs` — string helpers with exact specifications.
- `src/time.rs` — the timezone table, local time and calendar fields.
- `src/format.rs` — unit, wind, tone and fixed-point formatting.
- `src/presentation.rs` — the display-ready forecast view model.
- `src/tui.rs`, `src/tabs.rs` — the lines of the terminal views and the key
  handling of the scrollable page and of the tabbed view.
- `src/gui.rs` — the state machine of the desktop front-end.
- `src/report.rs`, `src/advice.rs` — labels, levels and advice of the
  printed report.
- `src/location.rs` — geocoding requests and how their answers become a
  location.
- `src/persistence.rs` — saved locations and units.
- `src/laws.rs` — properties relating several operations.
- `app/` — the command-line program: HTTP, files, terminal drawing and
  JSON, around the library.
- `tests/` — tests of the library on concrete values.
