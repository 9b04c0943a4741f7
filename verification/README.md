# raffler

A service for managing pinball games at locations: games can be reserved,
released, disabled and enabled, notes can be written about them, and
forgotten reservations are released after 90 minutes. Data lives in
PostgreSQL; the HTTP API is described by the routes in `app/main.rs`.

## Layout

- `src/` — the verified library.
  - `db.rs` — the rows, the database error, and handing notes to their games
    (grouped in a `HashMap` by game).
  - `txn.rs` — the transactions that change games and locations, as machines
    that ask for one statement at a time and decide on the answers.
  - `reads.rs` — the reads of games with their notes, in the same style.
  - `model.rs` — what the database does with each statement of the
    application's SQL, including statements the driver fails, and what a whole
    transaction comes to. It describes the SQL; it is not checked against a
    running PostgreSQL.
  - `laws.rs` — the outcome of every transaction, and the promises of the
    service proved from it against the model: idempotent
    reserve/release/enable/disable, disabling releases, deleted games stay
    hidden from the transactions, deleting a location cascades, a transaction
    that fails at any statement or at its commit changes nothing, and the
    single statements refuse missing or deleted rows.
  - `read_laws.rs` — what the reads give back against the model: a deleted game
    is not read, and a listing holds exactly the live games with their live
    notes, once each, games grouped by abbreviation and by id within one (the
    collation of abbreviations and the creation order of notes are left to the
    database).
  - `history.rs` — what holds after any sequence of operations: no operation
    brings a deleted game back, so it stays hidden from reads and
    transactions for good.
  - `cleanup.rs` — the background task that releases overdue reservations.
  - `api.rs` — what each endpoint answers for each outcome.
  - `outside.rs` — the types of other crates the library carries.
- `app/` — the program: the SQL, the loops that run the machines against the
  database, the axum handlers and the JSON types.
- `tests/` — tests of the library, including the transactions run against an
  in-memory stand-in for the database.
