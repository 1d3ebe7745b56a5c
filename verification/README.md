# benten_engine

The verified core of the Benten engine, written in Verus.

- `src/` is the library. Each module states its behaviour in `requires` /
  `ensures` contracts over mathematical models (`Seq`, `Set`, `Map`, spec
  functions) and Verus proves the code against them. Laws that relate
  several functions (round trips, replay refusal, read-after-write,
  injectivity of wire encodings) are public proof functions.
- Calls into outside crates (BLAKE3, Ed25519, `subtle`, the system clock,
  `String::push`) are wrapped in `src/crypto.rs`, `src/clock.rs` and
  `src/text.rs`; their contracts are trusted and documented there.
- `tests/` exercises the library on concrete values.
- `app/` holds what Verus does not take: the serde / DAG-CBOR encoding of
  module manifests (the library signs and verifies the canonical bytes this
  layer produces) and `Display` / `Error` forms of the library's errors.
