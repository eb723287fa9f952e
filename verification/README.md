# subscription_renewal

A Soroban subscription-renewal contract whose logic is verified with Verus.

- `src/` — the verified library. `ContractEnv` models what the contract sees:
  its instance and persistent storage (`Table`s keyed like the contract's
  storage keys), the ledger (sequence and timestamp), the events it
  published and the authorizations it required. `SubscriptionRenewalContract`
  holds the contract's calls; `spec.rs` states what each call does as a
  function of the environment, and each call's `ensures` is that function.
  `laws.rs` proves properties across calls (single-use approvals, spending
  caps, retry policy, lock handling, lifecycle timestamps, integrity).
  `digest.rs` computes the integrity digest of a subscription's terms through
  the Soroban host (XDR encoding and SHA-256).
- `app/` — the Soroban contract itself (`#[contract]`): it loads the storage
  entries a call may touch into a `ContractEnv`, runs the library's call,
  then requires the recorded authorizations, publishes the events and writes
  back the changed entries.
- `tests/` — the contract's scenarios and further tests of the model.
