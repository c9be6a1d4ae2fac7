# expense_api

A small expense tracker behind an HTTP API: users keep expenses and tag them.

- `src/` is the verified library.
  - `models` — `Tag`, `User`, `Expense`.
  - `db` — the SQL statements the services send, how each result is read, the
    rows that come back, and `Step`, the next thing an operation needs.
  - `services::expense_service`, `services::tag_service` — every operation of the
    services as a sequence of statements; a multi-statement operation is a
    value whose `resume` takes the outcome of one statement and gives the next
    statement or the result. Their laws (what a whole run does) are proof
    functions beside them.
  - `response` — the answers of the API: status, JSON body, and the decimal
    writing of an id.
  - `routes::expenses`, `routes::tags` — the route tables and the answer each
    route gives to each outcome.
- `app/` is the server: rocket routes and guards, the pool, the loop that runs
  the library's statements with sqlx, and the serde copies of the records.
- `tests/` runs the library on concrete values.
