# craftec_settlement

Settlement rules for creator reward pools and unidirectional USDC payment
channels, verified with Verus.

- `src/` is the verified library. Each instruction has a module under
  `src/instructions/` with a plain-data struct of the accounts it reads and
  writes and a `handler` that decides whether the instruction is accepted,
  how the accounts change, which token transfers to make and which event to
  emit. Its contract states all of this exactly.
- `src/laws.rs` proves properties across instructions: closing a channel
  pays out exactly what it locked, only vouchers signed by the channel's
  sender are accepted, a recorded voucher cannot be replayed, a force close
  pays out only after it was started and its timeout passed, the claims of
  a distribution never pay out more than its balance, every leaf of a
  distribution tree has a valid proof, and others.
- `app/` is the Anchor program around the library: account validation,
  clock reads, token transfers by CPI, account closing and events.
- `tests/` runs the library on concrete inputs.
