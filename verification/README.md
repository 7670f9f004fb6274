# statiq

A data-access library for SQL Server over ODBC: entity mapping, parameter binding,
generated CRUD statements, stored-procedure result sets, transactions with deadlock
retry, a connection pool, a circuit breaker, caching and an in-memory repository for
tests.

The library under `src/` is written in Verus: its functions carry `requires` / `ensures`
contracts that Verus proves, and the properties that span several calls (read after
write in the in-memory repository, the circuit breaker's state machine, the retry bound,
distinct cache keys, ...) are public proof functions named `law_*`. The exceptions are
the small wrappers around calls into `chrono`, `rust_decimal`, `uuid`, `hex`, `base64`,
`aes-gcm` and the standard library, marked `#[verifier::external_body]`: their contracts
state what those crates document and are assumed, not proved.

Layout:

- `src/` – the verified library.
  - `error`, `params`, `values`, `temporal`, `row`, `binding`, `embed`: values, parameters,
    rows and their text forms.
  - `query/`: the query builder, ORDER BY validation and named queries.
  - `entity/`: attribute reading, struct metadata, the generated SQL and the read plan
    that `#[derive(SqlEntity)]` emits.
  - `model`: the `SqlEntity` contract between the library and an entity type.
  - `sproc`: stored-procedure parameters and result-set readers.
  - `transaction`, `circuit_breaker`, `pool/`: the decisions of transactions, the retry
    loop, the breaker and the pool (checkout, idle validation, session reset, metrics).
  - `config`, `cache`, `service`, `mock`: configuration (including its encrypted form),
    cache keys, the service's parameter and SQL helpers, and the in-memory repository.
- `tests/`: tests of the library on concrete values.
- `app/`: the parts that perform I/O or need outside traits: the ODBC connection, the
  async pool and services, Redis and in-process caches, file loading, logging, axum
  integration and floating-point row access.
