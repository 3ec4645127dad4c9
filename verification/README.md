# citadel

A workspace for TPM operators: keys, sealed secrets, policies, NV memory, register
baselines, identities, attestation, a witness for a tamper-evident log, an HTTP daemon
and a terminal interface. The decisions are a verified library; files, sockets, the
database and the terminal are ordinary Rust around it.

## Layout

- `src/` is the library. Every function states what it returns or changes, and Verus
  proves it.
  - `store.rs`, `table.rs`, `model.rs`, `rows.rs`: what a workspace holds, and how it is
    kept in database rows.
  - `commands/`: one module for each command of the program. A command that needs the
    TPM has a check before the call (`.._check`) and a step after it; the step exists
    once with the identifier and the time as arguments (`.._at`) and once with fresh ones.
  - `daemon.rs`, `daemon/requests.rs`: what each request is answered.
  - `witness.rs`: which checkpoints a witness accepts, and which receipts it may forget.
  - `tpm2.rs`, `vtpm_bridge.rs`: TPM 2.0 commands, and the exchanges with a virtual TPM
    as steps from reply to next command.
  - `tls.rs`, `vtpm_credential.rs`: keys and signatures in the forms that TLS wants, and
    endorsement statements.
  - `tui.rs`, `tui/`: the state of the terminal interface and what it shows.
  - `text.rs`, `hex.rs`, `json.rs`, `grid.rs`, `diag.rs`, `failure.rs`: texts.
- `app/` is the program: `tpm`, and under the names `tpmd` and `tpm-wasi` the daemon and
  the program without a database. It has no client for hardware TPMs, no engine for
  virtual ones and no engine for the secure log; commands that need one say so.
- `tests/` runs the library.

## Trust

What an outside crate computes enters the library through small wrappers, each with a
contract that says what is believed of the call. They stand in `text.rs`, `clock.rs`,
`ids.rs`, `json.rs`, `rows.rs`, `sys.rs`, `tls.rs`, `vtpm_bridge.rs`,
`vtpm_credential.rs`, `commands/audit.rs` and `tui/views.rs`.
