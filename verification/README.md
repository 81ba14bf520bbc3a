# trace_server

The logic of the Trace backend — an HTTP API that records trips (journeys made
of flight, drive, train, … segments) — as a Verus-verified library, with the
server that runs it around it.

## Layout

- `src/` — the verified library.
  - `text`, `validation`: trimming, case folding, numerals, and the
    collect-every-error validation helpers.
  - `user`, `flight`, `journey`, `geo`, `time`: request types and their
    validation, with contracts that state every message and every normalised
    value; the per-request place cache and its keys.
  - `sql_builder`: `INSERT` and `SELECT` builders whose columns, placeholders
    and arguments cannot drift apart.
  - `store`: every statement the server runs, and the get-or-create state
    machines (read, insert-if-absent, read again) that decide what runs next.
  - `entities`, `responses`: rows as read back, and how a journey is
    assembled from them.
  - `error`: the error kinds, how database failures are classified, and what
    a caller is shown.
  - `crypto`: API keys and Argon2id password hashes.
- `app/` — the Axum server: routing, handlers, the transaction, running the
  library's statements on Postgres, JSON shapes, and great-circle distance.
- `tests/` — tests of the library.
