# ficus

The verified core of a peer-to-peer money transfer service: money and
currencies, double-entry ledger pairs, idempotent transfers, settlement of a
transfer against locked balances, retry policy, pagination cursors, error
mapping, request guards and rate limiting. Every function in `src/` carries a
contract proved by Verus; the laws of the service (money is conserved, a
retried request is replayed and never executed twice, cursors and UUID text
read back, a key's sliding window never holds more admissions than its
quota, ...) are proof functions or
`ensures` clauses there.

Layout:

- `src/` — the library, verified with Verus.
- `tests/` — tests of the library on concrete values.
- `app/` — the async runtime around it: use-case services over ports,
  PostgreSQL adapters (SeaORM), the Axum HTTP surface, metrics and OpenAPI.
  It performs the I/O and calls the library for every decision.
