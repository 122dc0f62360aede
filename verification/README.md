# milestone-escrow

An escrow contract for jobs that are paid milestone by milestone, with its rules
stated as contracts and proved by Verus.

- `src/` is the library: every request of the contract as a function on the
  ledger, verified. `src/steps.rs`, `src/laws.rs` and `src/interplay.rs` state what
  holds of single requests, of any sequence of them, and between them.
- `app/` is the contract itself: it loads the ledger from the host, makes the
  request, writes what has changed and does what the request asks for.
- `tests/` runs the library, against a small host of its own where signatures,
  tokens and events matter.
