# secure_tunnel_core

The transport-agnostic core of Secure Tunnel v1, written in Verus. The
library's own functions in `src/` carry `requires`/`ensures` contracts that
Verus proves. The calls into `base64`, `sha2`, `ed25519-dalek` and `snow`
(in `src/crypto.rs` and `src/noise_backend.rs`), and two UTF-8 conversions
of std (in `src/codec.rs`), sit behind small `external_body` wrappers whose
contracts are trusted: each states only what the outside source shows of
the call, and names results that take pages to state. The example
descriptor is proved valid outright; that the example root authorizes it
inside its window is proved under one premise that no wrapper states,
because it does not hold of every message: that strict Ed25519
verification accepts the signature the example key made over the example
body's hash.

## Layout

- `src/codec.rs`, `src/text.rs`, `src/compat.rs`, `src/timestamp.rs` — byte
  and text primitives: big-endian integers, length-prefixed fields, UTF-8,
  decimal text, RFC 3339 timestamps.
- `src/app_message.rs`, `src/account_session.rs`, `src/device_session.rs`,
  `src/inner_context.rs` — the application messages carried after
  `Secure Ready`, the Noise prologue and the device-proof signing bytes.
- `src/descriptor.rs`, `src/descriptor_auth.rs`, `src/descriptor_examples.rs`,
  `src/service_key.rs`, `src/trust.rs` (root key parsing) — service descriptor validation,
  canonical hashing, root signatures, authorization and connect planning.
- `src/selector.rs`, `src/transport.rs`, `src/session.rs` — the transport
  selection state machine: which carrier to try, when to fall back, and the
  cache posture it leaves behind.
- `src/noise.rs`, `src/noise_backend.rs` — the client `NK1` handshake and
  record protection over `snow`.
- `src/service_responder.rs`, `src/service_fixture.rs`, `src/connect_proxy.rs`,
  `src/harness.rs`, `src/cli.rs` — the loopback service, fixture, proxy request
  parsing, scenarios and command line of the smoke harness.
- `src/bindings.rs`, `src/sdk_types.rs`, `src/client_config.rs` — the plain
  data types of the language bindings and the client configuration they settle.
- `src/crypto.rs` — the `base64`, `sha2` and `ed25519-dalek` calls, whose
  results the contracts name.

`app/` holds what Verus does not check: JSON forms of the descriptor types,
the asynchronous transport traits and the loop that drives the selector, and
the record I/O around the handshake. `tests/` exercises the library with the
real outside crates linked.
