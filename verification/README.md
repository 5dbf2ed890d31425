# insurance_claims

Two insurance-claims contracts, written as verified state machines.

- `src/registry/`: holders create their own policies and file claims against
  them; the admin (or the holder) deactivates a policy and the admin sets the
  status of a claim.
- `src/lifecycle/`: the insurer registers policies; holders file claims, which
  the insurer takes through review (`Pending -> UnderReview -> Approved ->
  Paid`, or `Rejected` before payment).

In each, `model.rs` states the contract's state as a mathematical value and each
operation as a function on it, `contract.rs` implements the operations and proves
them equal to the model, and `laws.rs` proves what holds across operations.
`src/holder_index.rs` is the per-address list of ids that both use.

`app/` runs both contracts on Soroban: it checks authorizations, moves the
state between instance storage and the library, and publishes the events.
