# timelocked_upgrade

A Soroban contract with an admin-gated configuration, code upgrades that wait
out a 48-hour timelock, node staking, heartbeat freshness tracking,
per-address replay nonces and an emergency vote that replaces a compromised
admin key.

- `src/` is the contract's logic, verified with Verus. The ledger an
  invocation sees is modelled by `ledger::ContractEnv`; each entry point of
  `contract::TimeLockedUpgradeContract` (and `auth::require_multisig`,
  `storage::extend_consumer_lease`) is proved to follow a step function of
  `model` (or of its own module). `calls` describes sequences of calls, and
  `laws` proves properties that span calls: failed calls change no storage;
  only the admin changes the configuration; a signed call's nonce is refused
  on every later call; an upgrade executes only after a proposal that stood
  unchanged for the full timelock; every call keeps the ledger well-formed
  (the staked total is the sum of the positive stakes, the heartbeat interval
  is positive, signers and votes are counted once); and more.
- `app/` is the Soroban contract itself: it loads storage into a
  `ContractEnv`, calls the verified entry point, and then demands the
  authorizations, performs the code upgrade and writes the storage that the
  verified code decided on.
- `tests/` runs the entry points on concrete ledgers.
