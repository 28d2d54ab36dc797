# faultline

Error classification for services and control planes.

`Fault<D, T>` is a domain error `D` that callers branch on, a transient
error `T` that is usually retried (`anyhow::Error`, or `Never` where no
transient failure can occur), or an invariant violation carrying an
`anyhow::Error`.

Layout:

- `src/` — the verified library: `Fault` and its operations (`fault.rs`),
  the transient slot kinds (`errorkind.rs`), the `Result` extension traits
  (`result_ext.rs`), the serialized form of a fault (`wire.rs`) and the laws
  that relate the operations (`laws.rs`).
- `app/` — serde, schemars and thiserror support for the library's types,
  logging of invariant violations with `tracing`, and conversions to the
  `either` crate.
- `tests/` — tests run against the compiled library.
