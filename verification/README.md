# fiber_ffi

Native Rust and C-facing logic for embedding a Fiber payment-channel node with
a CKB backend served by an embedded CKB Light Client.

The library under `src/` is written in Verus: every function carries a
`requires`/`ensures` contract that Verus proves, and the properties that span
several calls are stated as public proof functions (`lemma_*`).

- `ffi_types`, `ffi_params`: C status codes, 128-bit values split into halves,
  error-message copying, and validation of the option structs of the C API.
- `funding_identity`, `ckb_script`, `ckb_encoding`: the funding wallet's lock
  script, its address and lock-args text, parsing of addresses, hashes, and
  peer connection targets.
- `readiness`, `balance`: whether the CKB index is ready, how long it still
  needs, and the wallet balance collected page by page.
- `wallet_history`, `prepare_state`: the block from which wallet history is
  scanned, the persisted wallet birthday, and the lifecycle of a prepared
  CKB backend.
- `light_client`: the Light Client's configuration, its RPC gateway rules,
  required-script registration, epoch resolution, pagination and pending
  input reservations.
- `events`: what a node event reports to embedders, with secrets withheld.
- `native`, `cli`: option checks of the native Rust API and the demo CLI's
  argument and time handling.

`app/` holds the unverified glue: the C entry points, the async runtime, file
and network I/O, the Light Client storage and services, and serde copies of
the library's types. `tests/` exercises the library on concrete values.
