# tls_keys

The key side of a TLS 1.3 client, verified with Verus: the ephemeral key
exchange over P-256 or X25519, the key schedule of RFC 8446, the tickets a
server hands out and the pre-shared keys that go with them, and what a decrypted
record does to a connection.

- `src/` is the library. `key_schedule_model.rs` says what each step of the
  schedule makes of its state, `key_schedule.rs` does it, and `laws.rs` states
  what holds of the operations together. `crypto.rs`, `curve.rs` and
  `bounded.rs` hold what is taken on trust from the `sha2`, `hkdf`, `hmac`,
  `p256`, `x25519-dalek` and `heapless` crates.
- `tests/` runs the library on known answers, on the edges of its inputs and on
  the way from one connection to the next.
- `app/` is what stands around the library: other random number generators,
  buffers by their addresses, and log output.
