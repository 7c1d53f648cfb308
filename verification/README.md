# script_dom

Verified core of two pieces of a browser's script engine:

* `src/hybrid_kem.rs` — the MLKEM768-P256 and MLKEM1024-P384 hybrid KEMs
  (C2PRI combiner, draft-irtf-cfrg-hybrid-kems-12): key derivation from a
  seed, deterministic encapsulation, decapsulation, key encodings, and
  RandomScalar rejection sampling, generic over a parameter trait.
* `src/webtransport.rs` — the checks of the `WebTransport` constructor and
  the state of send groups and datagram writers.
* `src/encoding.rs` — the byte encodings as mathematics (big-endian scalars,
  SEC1 points on P-256/P-384, the FIPS 203 encapsulation key check).
* `src/primitives.rs` — the trusted calls into `sha3`, `shake`, `ml-kem`,
  `p256` and `p384`, each with the contract it is trusted to meet.
* `app/lib.rs` — the `kem` crate's traits on the keys (random number
  generators included) and the clock for datagram timestamps.
