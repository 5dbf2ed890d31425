use vstd::prelude::*;
use crate::address::Address;
use crate::holder_index::{empty_index, owned_ids};
use super::types::{Action, ClaimStatus, ClaimView, Error, Policy};

verus! {

/// The whole state of the contract: what its ledger storage holds.
pub struct ContractState {
    /// The admin, once the contract is initialized.
    pub admin: Option<Address>,
    /// The id of the last claim filed (0 before any).
    pub claim_counter: u64,
    /// The id of the last policy created (0 before any).
    pub policy_counter: u64,
    pub policies: Map<u64, Policy>,
    pub claims: Map<u64, ClaimView>,
    /// For each holder, the ids handed out for its policies, in creation order.
    pub holder_policies: Map<Address, Seq<u64>>,
    /// For each holder, the ids handed out for its claims, in submission order.
    pub holder_claims: Map<Address, Seq<u64>>,
}

/// The holder of a policy.
pub open spec fn policy_owner() -> spec_fn(Policy) -> Address {
    |p: Policy| p.holder
}

/// The holder who filed a claim.
pub open spec fn claim_owner() -> spec_fn(ClaimView) -> Address {
    |c: ClaimView| c.policy_holder
}

/// The ids among `1..=n` of the policies held by `holder`, in increasing order.
pub open spec fn policy_ids_of(policies: Map<u64, Policy>, holder: Address, n: nat) -> Seq<u64> {
    owned_ids(policies, policy_owner(), holder, n)
}

/// The ids among `1..=n` of the claims filed by `holder`, in increasing order.
pub open spec fn claim_ids_of(claims: Map<u64, ClaimView>, holder: Address, n: nat) -> Seq<u64> {
    owned_ids(claims, claim_owner(), holder, n)
}

/// The address whose signature an action needs: the holder who creates a
/// policy or files a claim, the caller who deactivates, the admin who updates
/// a claim; `initialize` needs none.
pub open spec fn required_signer(action: Action) -> Option<Address> {
    match action {
        Action::Initialize { .. } => None,
        Action::CreatePolicy { holder, .. } => Some(holder),
        Action::DeactivatePolicy { caller, .. } => Some(caller),
        Action::SubmitClaim { policy_holder, .. } => Some(policy_holder),
        Action::UpdateClaimStatus { admin, .. } => Some(admin),
    }
}

impl ContractState {
    /// The state of a freshly deployed contract.
    pub open spec fn empty() -> ContractState {
        ContractState {
            admin: None,
            claim_counter: 0,
            policy_counter: 0,
            policies: Map::empty(),
            claims: Map::empty(),
            holder_policies: empty_index(),
            holder_claims: empty_index(),
        }
    }

    /// Ids run from 1 to the counters, and the per-holder lists hold exactly
    /// the ids of that holder's policies and claims, in increasing order.
    pub open spec fn indexed(self) -> bool {
        &&& forall|k: u64| #[trigger]
            self.policies.contains_key(k) <==> 1 <= k <= self.policy_counter
        &&& forall|k: u64| #[trigger]
            self.policies.contains_key(k) ==> self.policies[k].policy_id == k
        &&& forall|k: u64| #[trigger] self.claims.contains_key(k) <==> 1 <= k <= self.claim_counter
        &&& forall|k: u64| #[trigger] self.claims.contains_key(k) ==> self.claims[k].claim_id == k
        &&& forall|h: Address| #[trigger] self.holder_policies.contains_key(h)
        &&& forall|h: Address| #[trigger] self.holder_claims.contains_key(h)
        &&& forall|h: Address| #[trigger]
            self.holder_policies[h] == policy_ids_of(self.policies, h, self.policy_counter as nat)
        &&& forall|h: Address| #[trigger]
            self.holder_claims[h] == claim_ids_of(self.claims, h, self.claim_counter as nat)
    }

    // ── operations ──────────────────────────────────────────────────────────
    //
    // Each returns the state after the operation and what it answers; a
    // refused operation leaves the state as it was.

    /// Sets the admin; refused once there is one. Policies and claims already
    /// created, and the ids handed out, stay as they are.
    pub open spec fn initialize(self, admin: Address) -> (ContractState, Result<(), Error>) {
        if self.admin is Some {
            (self, Err(Error::AlreadyInitialised))
        } else {
            (ContractState { admin: Some(admin), ..self }, Ok(()))
        }
    }

    /// The policy that `create_policy` stores under `id`.
    pub open spec fn new_policy(
        id: u64,
        now: u64,
        holder: Address,
        coverage_amount: i128,
        premium: i128,
    ) -> Policy {
        Policy { policy_id: id, holder, coverage_amount, premium, active: true, created_at: now }
    }

    /// A holder creates an active policy under the next id.
    pub open spec fn create_policy(
        self,
        now: u64,
        holder: Address,
        coverage_amount: i128,
        premium: i128,
    ) -> (ContractState, u64) {
        let id = (self.policy_counter + 1) as u64;
        let policy = Self::new_policy(id, now, holder, coverage_amount, premium);
        (
            ContractState {
                policy_counter: id,
                policies: self.policies.insert(id, policy),
                holder_policies: self.holder_policies.insert(
                    holder,
                    self.holder_policies[holder].push(id),
                ),
                ..self
            },
            id,
        )
    }

    /// The admin or the holder marks a policy inactive.
    pub open spec fn deactivate_policy(self, caller: Address, policy_id: u64) -> (
        ContractState,
        Result<(), Error>,
    ) {
        if self.admin is None {
            (self, Err(Error::NotInitialised))
        } else if !self.policies.contains_key(policy_id) {
            (self, Err(Error::PolicyNotFound))
        } else if caller != self.admin->0 && caller != self.policies[policy_id].holder {
            (self, Err(Error::Unauthorised))
        } else {
            let policy = Policy { active: false, ..self.policies[policy_id] };
            (ContractState { policies: self.policies.insert(policy_id, policy), ..self }, Ok(()))
        }
    }

    /// Why a claim of `amount` by `policy_holder` against `policy_id` is
    /// refused, if it is.
    pub open spec fn claim_refusal(self, policy_holder: Address, policy_id: u64, amount: i128) -> Option<
        Error,
    > {
        if !self.policies.contains_key(policy_id) {
            Some(Error::PolicyNotFound)
        } else if !self.policies[policy_id].active {
            Some(Error::PolicyNotActive)
        } else if self.policies[policy_id].holder != policy_holder {
            Some(Error::NotYourPolicy)
        } else if amount > self.policies[policy_id].coverage_amount {
            Some(Error::ClaimExceedsCoverage)
        } else {
            None
        }
    }

    /// The claim that `submit_claim` stores under `id`.
    pub open spec fn new_claim(
        id: u64,
        now: u64,
        policy_holder: Address,
        amount: i128,
        description: Seq<u8>,
    ) -> ClaimView {
        ClaimView {
            claim_id: id,
            policy_holder,
            amount,
            description,
            status: ClaimStatus::Pending,
            created_at: now,
            updated_at: now,
        }
    }

    /// A holder files a pending claim against one of its active policies.
    pub open spec fn submit_claim(
        self,
        now: u64,
        policy_holder: Address,
        policy_id: u64,
        amount: i128,
        description: Seq<u8>,
    ) -> (ContractState, Result<u64, Error>) {
        match self.claim_refusal(policy_holder, policy_id, amount) {
            Some(e) => (self, Err(e)),
            None => {
                let id = (self.claim_counter + 1) as u64;
                let claim = Self::new_claim(id, now, policy_holder, amount, description);
                (
                    ContractState {
                        claim_counter: id,
                        claims: self.claims.insert(id, claim),
                        holder_claims: self.holder_claims.insert(
                            policy_holder,
                            self.holder_claims[policy_holder].push(id),
                        ),
                        ..self
                    },
                    Ok(id),
                )
            },
        }
    }

    /// The admin sets the status of a claim, whatever it was.
    pub open spec fn update_claim_status(
        self,
        now: u64,
        admin: Address,
        claim_id: u64,
        status: ClaimStatus,
    ) -> (ContractState, Result<(), Error>) {
        if self.admin is None {
            (self, Err(Error::NotInitialised))
        } else if admin != self.admin->0 {
            (self, Err(Error::OnlyAdmin))
        } else if !self.claims.contains_key(claim_id) {
            (self, Err(Error::ClaimNotFound))
        } else {
            let claim = ClaimView { status, updated_at: now, ..self.claims[claim_id] };
            (ContractState { claims: self.claims.insert(claim_id, claim), ..self }, Ok(()))
        }
    }

    // ── queries ─────────────────────────────────────────────────────────────

    /// The claim stored under `claim_id`.
    pub open spec fn claim(self, claim_id: u64) -> Result<ClaimView, Error> {
        if self.claims.contains_key(claim_id) {
            Ok(self.claims[claim_id])
        } else {
            Err(Error::ClaimNotFound)
        }
    }

    /// The policy stored under `policy_id`.
    pub open spec fn policy(self, policy_id: u64) -> Result<Policy, Error> {
        if self.policies.contains_key(policy_id) {
            Ok(self.policies[policy_id])
        } else {
            Err(Error::PolicyNotFound)
        }
    }

    /// The admin.
    pub open spec fn admin_address(self) -> Result<Address, Error> {
        match self.admin {
            Some(a) => Ok(a),
            None => Err(Error::NotInitialised),
        }
    }
}

} // verus!
