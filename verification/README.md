# linux_lit

The input layer of a reader for plays and prose with synchronized audio:
page positions and stored page tables, key bindings and chords, the key
handling of each mode, navigation scans, and the navigation self-test. The
logic is written in Verus and proved against its contracts.

- `src/` — the verified library. Each module states its model in spec
  functions; the `law_*` proof functions state the properties that hold
  across calls (a table round trip, a toggle undone by a second toggle, a
  stale timer that changes nothing, a pending chord that ends with the next
  key).
  The regular-expression search calls the `regex` crate through a few
  trusted wrappers in `overlay_search.rs`; `text.rs` wraps `str::to_lowercase`
  for the chapter-heading scan.
- `tests/` — the library's tests, run against the compiled crate.
- `app/` — what stays outside the library: reading the keymap file with
  serde, the environment, the clock, the clipboard and file lookups, and the
  floating-point timing math.
