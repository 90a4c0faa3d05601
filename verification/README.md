# rcd

rcd is a cooperative database service: a host shares tables of its SQLite
databases with participants under contracts, and keeps, for each table, a
logical storage policy that says where its rows live.

This crate is the verified core of rcd, written in Verus. The library decides
which SQL statements run, against which database file, with which
parameters, and what their outcomes mean; each of its functions carries a
contract that Verus proves. Running the statements is left to the caller:
an operation that needs several statements is a function from the outcomes
seen so far to its next step (`statement::DbStep`).

Layout:

- `src/` — the library: enumerations and their codes (`rcd_enum`), the SQL
  text of the backing store (`sql_text`), statement building and the step
  protocol (`statement`, `sqlite_store`, `dbi`), rcd's own database
  (`rcd_db`), contracts and participants of a user database (`contract`,
  `participant`), database schemas (`schema`), changes to partial databases
  (`partial_data`), reading results (`read_result`, `table`), statement
  classification (`query_parser`), messages and replies (`cdata`,
  `replies`), the remote procedure paths (`rpc`), settings (`service`),
  text utilities (`text`, `guid`), and models of the stored tables with the
  laws that hold of them across calls (`store_model`): an operation run
  against a model, each statement answered by the tables as they stand.
- `tests/` — tests of the library on concrete values.
- `app/` — the program: reads the settings file, runs the steps of the
  library against SQLite files with `rusqlite`, and waits for the operator
  to quit.
