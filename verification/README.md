# actix_crud

Create, read, update and delete of per-user JSON documents over HTTP, with
user registration, login sessions and live update streams.

- `src/` is the verified library (Verus): the decisions of the service.
  - `decimal`: `i64` text for pagination parameters and links.
  - `db`: storage failures and how they are classified.
  - `error`: the error answers and their HTTP status.
  - `json`: document data (one JSON value's text).
  - `ids`: random UUIDs and their text.
  - `document`: documents, listing queries, page order and page links,
    and the answers of the document routes.
  - `user`: registration checks, password hashing and checking, login
    sessions, and the answers of the user routes.
  - `updates`: the open event streams, who hears of a change, and the
    event frames.
  - `setting`: the cookie signing key.
  - `db_entry`: entries written in place or anew.
  - `response`: the answer type.
- `app/` is the server around it: actix-web routes and extractors, the
  SQLite store behind an r2d2 pool, JSON (de)serialisation, and the ping
  loop of the event streams.
- `tests/` runs the library on concrete values.
