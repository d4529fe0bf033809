# lib

Database migrations as data: tables, columns and constraints are described
with the constructors of `types` and the builders of `Type`, collected into
a `Migration`, and written as the SQL of PostgreSQL, SQLite 3 or Microsoft
SQL Server by `Migration::make`.

Everything under `src/` is verified with Verus:

- `types/` — column types and their metadata, constraints, referential
  actions and default values, each with a model (`SpecType` and friends)
  that the contracts speak of.
- `table.rs`, `migration.rs` — what a migration records, stated over those
  models.
- `backend/render.rs` — the SQL each dialect writes, as spec functions;
  `backend/write.rs` — the code that writes it, proved to append exactly
  that text.
- `text.rs` — joining with separators and decimal numbers.

The tests under `tests/` run the library on concrete migrations.
