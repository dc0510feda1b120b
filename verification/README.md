# rspgod

The verified core of a PostgreSQL logical-decoding output plugin that emits
every row change as JSON.

- `src/` — the library, verified with Verus:
  - `types.rs`: the emitted records (`Change`, `ChangeType`, `Field`, `Tuple`) and C booleans.
  - `change.rs`: which rows a change needs and what is emitted for it.
  - `tuple.rs`: the column-by-column decoder of a row.
  - `text.rs`: C strings and `NameData` buffers as text.
  - `heap.rs`: attribute lookup over a model of a heap tuple (flag words, null bitmap, datums).
  - `plugin.rs`: the start-up options and a small arithmetic export.
- `app/` — the plugin's C entry points, the calls into the server, and the JSON
  encoding (with `rustc-serialize`).
- `tests/` — tests of the library.
