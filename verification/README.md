# rustydatabasenotes

The domain library of a local-first notebook: pages arranged in a hierarchy,
block editing sessions, databases with typed properties, and table views that
filter, sort and group a database's rows. The library is written in Verus.
Its functions carry contracts proved against their bodies, except the small
`#[verifier::external_body]` wrappers in `ids`, `time` and `filter` that call
`uuid`, `chrono` and `str::to_lowercase`: their contracts are trusted, and
each one's doc comment says what it claims of the outside function.

## Layout

- `src/` — the verified library.
  - `text`, `ids`, `time`, `number`: characters and trimming, UUID identifiers,
    instants (via `chrono`), IEEE 754 numbers held as bit patterns.
  - `block`, `editor`, `page`, `hierarchy`, `database`, `property`: entities,
    value objects and their validation rules.
  - `view`, `filter`, `sort`, `group`, `table`: view settings and the table
    pipeline (filter, then stable sort, then grouping with collapsed groups
    hidden).
  - `dto`, `commands`, `records`, `errors`: what the frontend receives, the
    checks its commands run, decoding of stored rows, error kind names.
- `tests/` — tests of the library.
- `app/` — the application shell: SQLite storage (`sqlx`), the command
  handlers, JSON wire formats (`serde`) and error reporting (`thiserror`).

Outside crates called from the library: `uuid` (generating, formatting and
parsing identifiers) and `chrono` (clock, RFC 3339 and calendar formatting,
parsing). Everything else that touches the outside world stays in `app/`.
