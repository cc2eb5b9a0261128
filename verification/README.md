# stakely

Accounting rules of a native-SOL liquid staking pool, verified with Verus.

- `src/` — the verified library: account addresses (`key`), errors,
  account data (`states`), share arithmetic (`math`), one module per
  instruction under `instructions/` (the accounts it reads, the relations
  checked before its handler, and the handler), and cross-instruction
  properties (`laws`).
- `app/` — the Anchor program around the library: account deserialization,
  token and system program calls, lamport writes, and the entry points.
- `tests/` — tests of the library on concrete values.
