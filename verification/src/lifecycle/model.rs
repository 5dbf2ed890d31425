use vstd::prelude::*;
use crate::address::Address;
use crate::holder_index::{empty_index, owned_ids};
use super::types::{Action, ClaimStatus, ClaimView, Error, Policy};

verus! {

/// The whole state of the contract: what its ledger storage holds.
pub struct ContractState {
    /// The insurer, once the contract is initialized.
    pub admin: Option<Address>,
    /// The id of the last claim filed (0 before any).
    pub claim_counter: u64,
    /// The id of the last policy registered (0 before any).
    pub policy_counter: u64,
    pub policies: Map<u64, Policy>,
    pub claims: Map<u64, ClaimView>,
    /// For each holder, the ids of its policies in registration order.
    pub holder_policies: Map<Address, Seq<u64>>,
    /// For each claimant, the ids of its claims in submission order.
    pub claimant_claims: Map<Address, Seq<u64>>,
}

/// The holder of a policy.
pub open spec fn policy_owner() -> spec_fn(Policy) -> Address {
    |p: Policy| p.holder
}

/// The claimant of a claim.
pub open spec fn claim_owner() -> spec_fn(ClaimView) -> Address {
    |c: ClaimView| c.claimant
}

/// The ids among `1..=n` of the policies held by `holder`, in increasing order.
pub open spec fn policy_ids_of(policies: Map<u64, Policy>, holder: Address, n: nat) -> Seq<u64> {
    owned_ids(policies, policy_owner(), holder, n)
}

/// The ids among `1..=n` of the claims filed by `claimant`, in increasing order.
pub open spec fn claim_ids_of(claims: Map<u64, ClaimView>, claimant: Address, n: nat) -> Seq<u64> {
    owned_ids(claims, claim_owner(), claimant, n)
}

/// The status changes that the review allows a claim to make in one step
/// (staying where it is included).
pub open spec fn may_follow(before: ClaimStatus, after: ClaimStatus) -> bool {
    ||| after == before
    ||| before == ClaimStatus::Pending && after == ClaimStatus::UnderReview
    ||| before == ClaimStatus::UnderReview && after == ClaimStatus::Approved
    ||| before == ClaimStatus::Approved && after == ClaimStatus::Paid
    ||| before != ClaimStatus::Paid && after == ClaimStatus::Rejected
}

impl ContractState {
    /// The state of a freshly deployed contract.
    pub open spec fn empty() -> ContractState {
        ContractState {
            admin: None,
            claim_counter: 0,
            policy_counter: 0,
            policies: Map::empty(),
            claims: Map::empty(),
            holder_policies: empty_index(),
            claimant_claims: empty_index(),
        }
    }

    /// Whether a claim rests on a policy of its claimant and lies within the
    /// policy's coverage.
    pub open spec fn claim_backed(self, c: ClaimView) -> bool {
        &&& self.policies.contains_key(c.policy_id)
        &&& self.policies[c.policy_id].holder == c.claimant
        &&& 0 < c.amount <= self.policies[c.policy_id].coverage_amount
    }

    /// Whether a claim's review fields agree with its status: a pending claim
    /// has no review time, and any other claim names the insurer as the one who handled it.
    pub open spec fn review_consistent(self, c: ClaimView) -> bool {
        &&& c.status == ClaimStatus::Pending ==> c.reviewed_at == 0
        &&& c.status != ClaimStatus::Pending ==> self.admin == Some(c.reviewer)
    }

    /// What every state reached from `empty` by the operations satisfies.
    pub open spec fn consistent(self) -> bool {
        &&& self.admin is None ==> self.policy_counter == 0 && self.claim_counter == 0
        &&& forall|k: u64| #[trigger]
            self.policies.contains_key(k) <==> 1 <= k <= self.policy_counter
        &&& forall|k: u64| #[trigger]
            self.policies.contains_key(k) ==> self.policies[k].policy_id == k
        &&& forall|k: u64| #[trigger] self.claims.contains_key(k) <==> 1 <= k <= self.claim_counter
        &&& forall|k: u64| #[trigger]
            self.claims.contains_key(k) ==> {
                &&& self.claims[k].claim_id == k
                &&& self.claim_backed(self.claims[k])
                &&& self.review_consistent(self.claims[k])
            }
        &&& forall|h: Address| #[trigger] self.holder_policies.contains_key(h)
        &&& forall|h: Address| #[trigger] self.claimant_claims.contains_key(h)
        &&& forall|h: Address| #[trigger]
            self.holder_policies[h] == policy_ids_of(self.policies, h, self.policy_counter as nat)
        &&& forall|h: Address| #[trigger]
            self.claimant_claims[h] == claim_ids_of(self.claims, h, self.claim_counter as nat)
    }

    // ── operations ──────────────────────────────────────────────────────────
    //
    // Each returns the state after the operation and what it answers; a
    // refused operation leaves the state as it was.

    /// Sets the insurer; refused once there is one.
    pub open spec fn initialize(self, admin: Address) -> (ContractState, Result<(), Error>) {
        if self.admin is Some {
            (self, Err(Error::AlreadyInitialized))
        } else {
            (ContractState { admin: Some(admin), claim_counter: 0, policy_counter: 0, ..self }, Ok(()))
        }
    }

    /// The policy that `register_policy` stores under `id`.
    pub open spec fn new_policy(
        id: u64,
        now: u64,
        holder: Address,
        coverage_amount: i128,
        premium_paid: i128,
    ) -> Policy {
        Policy { policy_id: id, holder, coverage_amount, premium_paid, is_active: true, created_at: now }
    }

    /// The insurer registers an active policy for `holder` under the next id.
    pub open spec fn register_policy(
        self,
        now: u64,
        holder: Address,
        coverage_amount: i128,
        premium_paid: i128,
    ) -> (ContractState, Result<u64, Error>) {
        if self.admin is None {
            (self, Err(Error::NotInitialized))
        } else {
            let id = (self.policy_counter + 1) as u64;
            let policy = Self::new_policy(id, now, holder, coverage_amount, premium_paid);
            (
                ContractState {
                    policy_counter: id,
                    policies: self.policies.insert(id, policy),
                    holder_policies: self.holder_policies.insert(
                        holder,
                        self.holder_policies[holder].push(id),
                    ),
                    ..self
                },
                Ok(id),
            )
        }
    }

    /// The insurer marks a policy inactive.
    pub open spec fn deactivate_policy(self, policy_id: u64) -> (ContractState, Result<(), Error>) {
        if self.admin is None {
            (self, Err(Error::NotInitialized))
        } else if !self.policies.contains_key(policy_id) {
            (self, Err(Error::PolicyNotFound))
        } else {
            let policy = Policy { is_active: false, ..self.policies[policy_id] };
            (ContractState { policies: self.policies.insert(policy_id, policy), ..self }, Ok(()))
        }
    }

    /// Why a claim of `amount` by `claimant` against `policy_id` is refused,
    /// if it is.
    pub open spec fn claim_refusal(self, claimant: Address, policy_id: u64, amount: i128) -> Option<
        Error,
    > {
        if !self.policies.contains_key(policy_id) {
            Some(Error::PolicyNotFound)
        } else if !self.policies[policy_id].is_active {
            Some(Error::PolicyNotActive)
        } else if self.policies[policy_id].holder != claimant {
            Some(Error::NotPolicyHolder)
        } else if amount > self.policies[policy_id].coverage_amount {
            Some(Error::ExceedsCoverage)
        } else if amount <= 0 {
            Some(Error::NonPositiveAmount)
        } else {
            None
        }
    }

    /// The claim that `submit_claim` stores under `id`.
    pub open spec fn new_claim(
        id: u64,
        now: u64,
        contract: Address,
        claimant: Address,
        policy_id: u64,
        amount: i128,
        description: Seq<u8>,
    ) -> ClaimView {
        ClaimView {
            claim_id: id,
            claimant,
            policy_id,
            amount,
            description,
            status: ClaimStatus::Pending,
            submitted_at: now,
            reviewed_at: 0,
            reviewer: contract,
        }
    }

    /// A holder files a pending claim against one of its active policies.
    pub open spec fn submit_claim(
        self,
        now: u64,
        contract: Address,
        claimant: Address,
        policy_id: u64,
        amount: i128,
        description: Seq<u8>,
    ) -> (ContractState, Result<u64, Error>) {
        match self.claim_refusal(claimant, policy_id, amount) {
            Some(e) => (self, Err(e)),
            None => {
                let id = (self.claim_counter + 1) as u64;
                let claim = Self::new_claim(
                    id,
                    now,
                    contract,
                    claimant,
                    policy_id,
                    amount,
                    description,
                );
                (
                    ContractState {
                        claim_counter: id,
                        claims: self.claims.insert(id, claim),
                        claimant_claims: self.claimant_claims.insert(
                            claimant,
                            self.claimant_claims[claimant].push(id),
                        ),
                        ..self
                    },
                    Ok(id),
                )
            },
        }
    }

    /// Why the insurer cannot act on claim `claim_id` now, if it cannot.
    pub open spec fn review_refusal(self, claim_id: u64) -> Option<Error> {
        if self.admin is None {
            Some(Error::NotInitialized)
        } else if !self.claims.contains_key(claim_id) {
            Some(Error::ClaimNotFound)
        } else {
            None
        }
    }

    /// Stores `claim` under `claim_id`.
    pub open spec fn with_claim(self, claim_id: u64, claim: ClaimView) -> ContractState {
        ContractState { claims: self.claims.insert(claim_id, claim), ..self }
    }

    /// The insurer takes a pending claim under review.
    pub open spec fn start_review(self, now: u64, claim_id: u64) -> (ContractState, Result<(), Error>) {
        match self.review_refusal(claim_id) {
            Some(e) => (self, Err(e)),
            None => {
                let c = self.claims[claim_id];
                if c.status != ClaimStatus::Pending {
                    (self, Err(Error::NotPending))
                } else {
                    let claim = ClaimView {
                        status: ClaimStatus::UnderReview,
                        reviewed_at: now,
                        reviewer: self.admin->0,
                        ..c
                    };
                    (self.with_claim(claim_id, claim), Ok(()))
                }
            },
        }
    }

    /// The insurer approves a claim under review.
    pub open spec fn approve_claim(self, claim_id: u64) -> (ContractState, Result<(), Error>) {
        match self.review_refusal(claim_id) {
            Some(e) => (self, Err(e)),
            None => {
                let c = self.claims[claim_id];
                if c.status != ClaimStatus::UnderReview {
                    (self, Err(Error::NotUnderReview))
                } else {
                    let claim = ClaimView { status: ClaimStatus::Approved, reviewer: self.admin->0, ..c };
                    (self.with_claim(claim_id, claim), Ok(()))
                }
            },
        }
    }

    /// The insurer rejects a claim that has not been paid.
    pub open spec fn reject_claim(self, claim_id: u64) -> (ContractState, Result<(), Error>) {
        match self.review_refusal(claim_id) {
            Some(e) => (self, Err(e)),
            None => {
                let c = self.claims[claim_id];
                if c.status == ClaimStatus::Paid {
                    (self, Err(Error::AlreadyPaid))
                } else {
                    let claim = ClaimView { status: ClaimStatus::Rejected, reviewer: self.admin->0, ..c };
                    (self.with_claim(claim_id, claim), Ok(()))
                }
            },
        }
    }

    /// The insurer records the payment of an approved claim.
    pub open spec fn mark_paid(self, claim_id: u64) -> (ContractState, Result<(), Error>) {
        match self.review_refusal(claim_id) {
            Some(e) => (self, Err(e)),
            None => {
                let c = self.claims[claim_id];
                if c.status != ClaimStatus::Approved {
                    (self, Err(Error::NotApproved))
                } else {
                    let claim = ClaimView { status: ClaimStatus::Paid, ..c };
                    (self.with_claim(claim_id, claim), Ok(()))
                }
            },
        }
    }

    /// The address whose signature `action` needs: the insurer for
    /// registering, deactivating and every review step, the claimant for a
    /// claim, the new insurer for `initialize`. Refused, before any signature
    /// is asked for, when there is no insurer yet (or, for `initialize`,
    /// already one).
    pub open spec fn required_signer(self, action: Action) -> Result<Address, Error> {
        match action {
            Action::Initialize { admin } => if self.admin is Some {
                Err(Error::AlreadyInitialized)
            } else {
                Ok(admin)
            },
            Action::SubmitClaim { claimant, .. } => Ok(claimant),
            _ => self.admin_address(),
        }
    }

    // ── queries ─────────────────────────────────────────────────────────────

    /// The claim stored under `claim_id`.
    pub open spec fn claim(self, claim_id: u64) -> Result<ClaimView, Error> {
        if self.claims.contains_key(claim_id) {
            Ok(self.claims[claim_id])
        } else {
            Err(Error::ClaimNotFound)
        }
    }

    /// The policy stored under `policy_id`.
    pub open spec fn policy(self, policy_id: u64) -> Result<Policy, Error> {
        if self.policies.contains_key(policy_id) {
            Ok(self.policies[policy_id])
        } else {
            Err(Error::PolicyNotFound)
        }
    }

    /// The insurer.
    pub open spec fn admin_address(self) -> Result<Address, Error> {
        match self.admin {
            Some(a) => Ok(a),
            None => Err(Error::NotInitialized),
        }
    }
}

} // verus!
