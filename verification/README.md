# subscription_vault

A verified library for a prepaid subscription vault with recurring billing,
and the Soroban contract that exposes it.

- `src/vault.rs` — the vault's state: the one-time `init` guard, the
  configuration getters, subscription creation and lookup.
- `src/state_machine.rs` — the subscription status transition matrix and the
  functions that validate and apply status changes.
- `src/charge_model.rs` — deposit and charge accounting, with the balance,
  timestamp, conservation and interval-guard invariants proved as lemmas.
- `src/types.rs`, `src/error.rs`, `src/keys.rs` — shared types, errors and
  storage key names.
- `app/lib.rs` — the contract entry points: they read instance storage,
  call the library, and write back what changed; authorisation and the ledger
  clock are handled there.
