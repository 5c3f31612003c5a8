# ipmi_desktop_manager

A library for managing server BMCs over IPMI 2.0 (RMCP+) and Redfish, with
its protocol logic verified by Verus, and a small command-line program
around it.

## Layout

- `src/` — the verified library.
  - `ipmi/` — algorithm identifiers, errors, key derivation, the
    confidentiality pad and the checksum (`mod.rs`); the pre-session packets
    of the RAKP handshake (`packet.rs`); the session state, its handshake
    steps, request framing and response decoding (`session.rs`); the
    Serial-over-LAN payloads (`sol.rs`).
  - `crypto.rs` — HMAC (MD5, SHA-1, SHA-256), AES-128-CBC and random
    numbers, each computed by its outside crate behind a trusted contract.
  - `redfish.rs`, `json.rs` — Redfish URLs, headers, request bodies and the
    reading of resources from a JSON value model.
  - `commands.rs` — the connection flow (Redfish first, IPMI as fallback,
    by protocol mode) and the mapping of power actions.
  - `bytes.rs`, `text.rs`, `keychain.rs` — byte layout, string helpers and
    keychain entry names.
- `tests/` — tests run against the compiled library with the real crypto
  crates linked.
- `app/` — the command-line program: sockets, HTTP, keychain access and the
  floating-point sensor readings.

## Verifying

The library is checked with Verus; `app/` is ordinary Rust and is not
verified.
