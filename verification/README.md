# rjwt

Recursive JSON Web Tokens signed with Ed25519 or Falcon-512 (FN-DSA-512, PADDED
signatures, domain-separated with the context `rjwt-v1`), written in Verus.

A token may inherit another signed token, so that a verified token carries a
chain of `(host, actor, claims)` triples, newest first, which expires with the
root token of the chain.

## Layout

- `src/` — the verified library.
  - `sig.rs`, `ed25519.rs`, `falcon512.rs`: algorithms, keys and signatures, and
    the Falcon-512 backend trait with its `falcon-rs` implementation.
  - `b64.rs`, `frame.rs`, `text.rs`: base64, the `header.body.signature` framing
    of token text, and message text.
  - `token.rs`, `claims.rs`, `time.rs`: tokens, signed tokens, chains of claims,
    and spans of time since the Unix epoch.
  - `actor.rs`: actors, which sign and consume tokens.
  - `verify.rs`: verification as a sequence of steps: a header pass over the whole
    chain (`AlgScan`), which refuses a chain whose tokens name different
    algorithms before any actor is resolved, then a check of each token
    (`ChainCheck`, `AwaitBody`, `AwaitActor`) against the actor resolved for it.
- `app/` — what Verus does not see: the serde wire format of headers and tokens,
  `SystemTime` conversions, an error type with `Display`, and the asynchronous
  `Resolve` trait whose `verify` runs the verification steps, awaiting the
  resolver between them.
- `tests/` — tests of the library.
