# errandgo

A Verus-verified model of the ErrandGo escrow, errand-management and payment
contract for Soroban.

- `src/` is the verified library. `env::Env` holds the contract's storage and
  the ordered record of what the contract asks of its host (authorisations,
  token transfers, events, lifetime renewals, code upgrades).
  `contract::ErrandGo` holds the entry points; each one's `ensures` gives the
  environment after the call and the result exactly, through the `*_outcome`
  spec functions in `contract.rs`. `laws.rs` proves properties that span
  entry points: refusals change no storage, accepted requests are authorised by
  the right role, errands only move along the lifecycle
  (Funded → Completed → Released, Funded → Disputed → Resolved), an errand id
  is funded once, payouts add up to the escrow less rounding, and more.
- `app/` is the Soroban contract: it loads the storage an invocation reads into
  an `Env`, calls the library, writes storage back and performs the recorded
  host requests with `soroban-sdk`.
- `tests/` runs the library on concrete values.
