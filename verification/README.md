# tatara-mesh

The typed `(defmesh …)` primitive of the pleme-io service mesh: `MeshSpec`
(identity, data plane, mTLS posture, retry/timeout/circuit-breaker defaults,
observability, policy and gateway sources) and its fail-closed validation,
verified with Verus.

- `src/` is the verified library: the spec types, `MeshSpec::validate`
  (`validate::all`), the defaults, the duration text codec
  (`policy::humantime_serde_compat`), the library's `Duration`, and the text
  facts they rest on (`text`). Laws are public proof functions beside the
  functions they speak of.
- `app/` is the serde face: copies of the types with serde derives, `std`
  durations and an `f32` retry budget, converting to and from the library's
  types; validation error messages via `thiserror`.
- `tests/` runs the library on concrete values.
