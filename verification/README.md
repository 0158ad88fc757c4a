# anchorkit

A registry of anchors for a smart-contract ledger, verified with Verus.

Anchors connect a ledger with the world outside it. The registry keeps the
attestors that vouch for them, records what they attest, and routes requests to
the anchors whose quotes answer them best.

- `src/` is the registry as a state machine. Each entry point takes the
  environment of a call and either refuses the call with an error, changing
  nothing, or carries it out; its contract says which, and what the state is
  afterwards.
- `tests/` runs the registry on concrete values.
- `app/` connects the registry with the Soroban host: it asks for
  authorizations, has signatures verified, reads the entries that a call
  touches, and writes back what has changed.

What a call cannot decide by itself is handed in as an answer of the host:
authorizations, signatures, SEP-10 tokens, acceptable domains, and what the rate
limiter grants. Two functions are taken on trust: SHA-256 of the Soroban SDK,
and the UTF-8 decoder of the standard library.
