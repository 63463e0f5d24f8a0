# jueming

The verified core of a local-first bilingual parallel-text aligner: its
domain objects, deterministic import pipeline, and the policy rules of its
application host, local agent bridge and embedded agent runtime. All of
`src/` is verified by Verus; the public functions state what they return in
their contracts, and the small trusted wrappers around outside crates and
std, whose contracts are assumed, are documented where they stand.

- `src/` — the verified library (see the module list in `src/lib.rs`).
- `tests/` — tests of the library on concrete values.
- `app/` — unverified edges: file reading, JSON wire forms, the model
  provider's wire format, the driver of an agent run and the bridge's HTTP
  error bodies.

Outside crates are reached only through small trusted wrappers, each of
which states what it assumes of the crate it calls.
