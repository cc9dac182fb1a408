# tycoon_game

The Tycoon game contract for Soroban, with its logic proved against its specification.

- `src/` — the verified library. `contract.rs` holds `TycoonContract`, one
  method per entrypoint, each specified against the storage model
  `GameState` of `state.rs`; `laws.rs` proves the properties that span
  entrypoints over any sequence of calls (`GameState::after_all`): the
  contract stays initialised with its token and reward addresses fixed and
  refuses every later `initialize`, catalogue and cash-tier reads return the
  last write of the same key, owner-only entrypoints need the owner; and
  controller rotation, ownership transfer, idempotent migration, profiles
  keyed by address;
  `text.rs` counts the characters of a UTF-8 username (each ill-formed byte
  counting as one); `treasury.rs` holds the treasury snapshot and its solvency invariant;
  `collectible_error.rs` the stable error codes of the collectibles contract.
- `app/` — the Soroban contract around the library: storage, the address
  book that gives each address its numeric handle, authorisation checks,
  token transfers, the reward-system call and events.
- `tests/` — scenario and edge-case tests of the library.
