use vstd::prelude::*;
use crate::address::Address;
use crate::env::Env;
use crate::holder_index::lemma_owned_ids_frame;
use super::model::{claim_ids_of, claim_owner, may_follow, policy_ids_of, policy_owner, ContractState};
use super::types::{Action, ClaimStatus, ClaimView, Error, Policy};

verus! {

impl ContractState {
    /// The state after `action` is invoked in `env`.
    pub open spec fn step(self, env: Env, action: Action) -> ContractState {
        match action {
            Action::Initialize { admin } => self.initialize(admin).0,
            Action::RegisterPolicy { holder, coverage_amount, premium_paid } => self.register_policy(
                env.timestamp,
                holder,
                coverage_amount,
                premium_paid,
            ).0,
            Action::DeactivatePolicy { policy_id } => self.deactivate_policy(policy_id).0,
            Action::SubmitClaim { claimant, policy_id, amount, description } => self.submit_claim(
                env.timestamp,
                env.current_contract_address,
                claimant,
                policy_id,
                amount,
                description@,
            ).0,
            Action::StartReview { claim_id } => self.start_review(env.timestamp, claim_id).0,
            Action::ApproveClaim { claim_id } => self.approve_claim(claim_id).0,
            Action::RejectClaim { claim_id } => self.reject_claim(claim_id).0,
            Action::MarkPaid { claim_id } => self.mark_paid(claim_id).0,
        }
    }

    /// Whether `action`, invoked in `env`, is accepted.
    pub open spec fn accepts(self, env: Env, action: Action) -> bool {
        match action {
            Action::Initialize { admin } => self.initialize(admin).1 is Ok,
            Action::RegisterPolicy { holder, coverage_amount, premium_paid } => self.register_policy(
                env.timestamp,
                holder,
                coverage_amount,
                premium_paid,
            ).1 is Ok,
            Action::DeactivatePolicy { policy_id } => self.deactivate_policy(policy_id).1 is Ok,
            Action::SubmitClaim { claimant, policy_id, amount, .. } => self.claim_refusal(
                claimant,
                policy_id,
                amount,
            ) is None,
            Action::StartReview { claim_id } => self.start_review(env.timestamp, claim_id).1 is Ok,
            Action::ApproveClaim { claim_id } => self.approve_claim(claim_id).1 is Ok,
            Action::RejectClaim { claim_id } => self.reject_claim(claim_id).1 is Ok,
            Action::MarkPaid { claim_id } => self.mark_paid(claim_id).1 is Ok,
        }
    }

    /// Whether `signer` is entitled to have `action` carried out: the holder
    /// of the policy a claim is filed against, the insurer that `initialize`
    /// sets, and the insurer for everything else.
    pub open spec fn entitled(self, action: Action, signer: Address) -> bool {
        match action {
            Action::Initialize { admin } => signer == admin && self.admin is None,
            Action::SubmitClaim { policy_id, .. } => self.policies.contains_key(policy_id)
                && signer == self.policies[policy_id].holder,
            _ => self.admin == Some(signer),
        }
    }

    /// The state after the actions of `steps`, each in its ledger, in order.
    pub open spec fn run(self, steps: Seq<(Env, Action)>) -> ContractState
        decreases steps.len(),
    {
        if steps.len() == 0 {
            self
        } else {
            self.run(steps.drop_last()).step(steps.last().0, steps.last().1)
        }
    }

    /// Whether each action of `steps` is admitted in the state it meets.
    pub open spec fn run_admitted(self, steps: Seq<(Env, Action)>) -> bool
        decreases steps.len(),
    {
        steps.len() == 0 || (self.run_admitted(steps.drop_last()) && self.run(
            steps.drop_last(),
        ).admits(steps.last().1))
    }

    /// How many claims the actions of `steps` file successfully.
    pub open spec fn accepted_claims(self, steps: Seq<(Env, Action)>) -> nat
        decreases steps.len(),
    {
        if steps.len() == 0 {
            0
        } else {
            let before = self.run(steps.drop_last());
            self.accepted_claims(steps.drop_last()) + match steps.last().1 {
                Action::SubmitClaim { claimant, policy_id, amount, .. } => if before.claim_refusal(
                    claimant,
                    policy_id,
                    amount,
                ) is None {
                    1nat
                } else {
                    0nat
                },
                _ => 0nat,
            }
        }
    }

    /// Whether `action` can be invoked without running a counter past `u64::MAX`
    /// (the inputs that the operations' `requires` admit).
    pub open spec fn admits(self, action: Action) -> bool {
        match action {
            Action::RegisterPolicy { .. } => self.admin is Some ==> self.policy_counter < u64::MAX,
            Action::SubmitClaim { claimant, policy_id, amount, .. } => self.claim_refusal(
                claimant,
                policy_id,
                amount,
            ) is None ==> self.claim_counter < u64::MAX,
            _ => true,
        }
    }
}

/// A freshly deployed contract is consistent.
pub proof fn lemma_empty_is_consistent()
    ensures
        ContractState::empty().consistent(),
{
    let s = ContractState::empty();
    assert forall|h: Address| #[trigger] s.holder_policies[h] == policy_ids_of(s.policies, h, 0) by {}
    assert forall|h: Address| #[trigger] s.claimant_claims[h] == claim_ids_of(s.claims, h, 0) by {}
}

/// Changing one claim into a claim with the same id, claimant, policy and
/// amount keeps the state consistent.
proof fn lemma_claim_update_consistent(s: ContractState, claim_id: u64, claim: ClaimView)
    requires
        s.consistent(),
        s.claims.contains_key(claim_id),
        claim.claim_id == s.claims[claim_id].claim_id,
        claim.claimant == s.claims[claim_id].claimant,
        claim.policy_id == s.claims[claim_id].policy_id,
        claim.amount == s.claims[claim_id].amount,
        s.review_consistent(claim),
    ensures
        s.with_claim(claim_id, claim).consistent(),
{
    let t = s.with_claim(claim_id, claim);
    assert forall|h: Address| #[trigger] t.claimant_claims[h] == claim_ids_of(
        t.claims,
        h,
        t.claim_counter as nat,
    ) by {
        lemma_owned_ids_frame(s.claims, t.claims, claim_owner(), h, s.claim_counter as nat);
    }
    assert forall|k: u64| #[trigger] t.claims.contains_key(k) implies t.claims[k].claim_id == k
        && t.claim_backed(t.claims[k]) && t.review_consistent(t.claims[k]) by {
        assert(s.claims.contains_key(k));
    }
}

/// Every operation keeps a consistent state consistent: ids run from 1 to
/// the counters, every claim rests on a policy of its claimant and within its
/// coverage, and the per-holder and per-claimant lists hold exactly the ids of
/// that holder's policies and that claimant's claims, in increasing order.
pub proof fn lemma_step_keeps_consistency(s: ContractState, env: Env, action: Action)
    requires
        s.consistent(),
        s.admits(action),
    ensures
        s.step(env, action).consistent(),
{
    let t = s.step(env, action);
    match action {
        Action::Initialize { admin } => {},
        Action::RegisterPolicy { holder, coverage_amount, premium_paid } => {
            if s.admin is Some {
                let n = s.policy_counter as nat;
                let id = (s.policy_counter + 1) as u64;
                assert forall|h: Address| #[trigger] t.holder_policies[h] == policy_ids_of(
                    t.policies,
                    h,
                    t.policy_counter as nat,
                ) by {
                    lemma_owned_ids_frame(s.policies, t.policies, policy_owner(), h, n);
                    assert(t.policies[id].holder == holder);
                }
                assert forall|k: u64| #[trigger] t.claims.contains_key(k) implies t.claims[k].claim_id
                    == k && t.claim_backed(t.claims[k]) && t.review_consistent(t.claims[k]) by {
                    assert(s.claim_backed(s.claims[k]));
                    assert(s.policies.contains_key(s.claims[k].policy_id));
                }
                assert forall|k: u64| #[trigger] t.policies.contains_key(k) implies t.policies[k].policy_id == k by {
                    if k != id {
                        assert(s.policies.contains_key(k));
                    }
                }
            }
        },
        Action::DeactivatePolicy { policy_id } => {
            if s.admin is Some && s.policies.contains_key(policy_id) {
                assert forall|h: Address| #[trigger] t.holder_policies[h] == policy_ids_of(
                    t.policies,
                    h,
                    t.policy_counter as nat,
                ) by {
                    lemma_owned_ids_frame(s.policies, t.policies, policy_owner(), h, s.policy_counter as nat);
                }
                assert forall|k: u64| #[trigger] t.claims.contains_key(k) implies t.claims[k].claim_id
                    == k && t.claim_backed(t.claims[k]) && t.review_consistent(t.claims[k]) by {
                    assert(s.claim_backed(s.claims[k]));
                }
            }
        },
        Action::SubmitClaim { claimant, policy_id, amount, description } => {
            if s.claim_refusal(claimant, policy_id, amount) is None {
                let n = s.claim_counter as nat;
                let id = (s.claim_counter + 1) as u64;
                assert forall|h: Address| #[trigger] t.claimant_claims[h] == claim_ids_of(
                    t.claims,
                    h,
                    t.claim_counter as nat,
                ) by {
                    lemma_owned_ids_frame(s.claims, t.claims, claim_owner(), h, n);
                    assert(t.claims[id].claimant == claimant);
                }
                assert forall|k: u64| #[trigger] t.claims.contains_key(k) implies t.claims[k].claim_id
                    == k && t.claim_backed(t.claims[k]) && t.review_consistent(t.claims[k]) by {
                    if k != id {
                        assert(s.claims.contains_key(k));
                    }
                }
            }
        },
        Action::StartReview { claim_id } => {
            if s.review_refusal(claim_id) is None && s.claims[claim_id].status
                == ClaimStatus::Pending {
                let c = s.claims[claim_id];
                lemma_claim_update_consistent(
                    s,
                    claim_id,
                    ClaimView {
                        status: ClaimStatus::UnderReview,
                        reviewed_at: env.timestamp,
                        reviewer: s.admin->0,
                        ..c
                    },
                );
            }
        },
        Action::ApproveClaim { claim_id } => {
            if s.review_refusal(claim_id) is None && s.claims[claim_id].status
                == ClaimStatus::UnderReview {
                let c = s.claims[claim_id];
                lemma_claim_update_consistent(
                    s,
                    claim_id,
                    ClaimView { status: ClaimStatus::Approved, reviewer: s.admin->0, ..c },
                );
            }
        },
        Action::RejectClaim { claim_id } => {
            if s.review_refusal(claim_id) is None && s.claims[claim_id].status != ClaimStatus::Paid {
                let c = s.claims[claim_id];
                lemma_claim_update_consistent(
                    s,
                    claim_id,
                    ClaimView { status: ClaimStatus::Rejected, reviewer: s.admin->0, ..c },
                );
            }
        },
        Action::MarkPaid { claim_id } => {
            if s.review_refusal(claim_id) is None && s.claims[claim_id].status
                == ClaimStatus::Approved {
                let c = s.claims[claim_id];
                lemma_claim_update_consistent(s, claim_id, ClaimView { status: ClaimStatus::Paid, ..c });
            }
        },
    }
}

/// Every operation keeps each claim already filed: its id, claimant, policy,
/// amount, description and submission time never change, and its status only
/// moves along the review (`Pending -> UnderReview -> Approved -> Paid`, or to
/// `Rejected` from any status but `Paid`).
pub proof fn lemma_step_follows_review(s: ContractState, env: Env, action: Action, claim_id: u64)
    requires
        s.consistent(),
        s.admits(action),
        s.claims.contains_key(claim_id),
    ensures
        ({
            let t = s.step(env, action);
            let before = s.claims[claim_id];
            let after = t.claims[claim_id];
            &&& t.claims.contains_key(claim_id)
            &&& after.claim_id == before.claim_id
            &&& after.claimant == before.claimant
            &&& after.policy_id == before.policy_id
            &&& after.amount == before.amount
            &&& after.description == before.description
            &&& after.submitted_at == before.submitted_at
            &&& may_follow(before.status, after.status)
        }),
{
    match action {
        Action::SubmitClaim { .. } => {
            assert(claim_id != s.claim_counter + 1);
        },
        _ => {},
    }
}

/// A paid claim is never changed again.
pub proof fn lemma_paid_claim_is_final(s: ContractState, env: Env, action: Action, claim_id: u64)
    requires
        s.consistent(),
        s.admits(action),
        s.claims.contains_key(claim_id),
        s.claims[claim_id].status == ClaimStatus::Paid,
    ensures
        s.step(env, action).claims[claim_id] == s.claims[claim_id],
{
    match action {
        Action::SubmitClaim { .. } => {
            assert(claim_id != s.claim_counter + 1);
        },
        _ => {},
    }
}

/// Every operation keeps each policy already registered with its id, holder,
/// coverage, premium and creation time; an inactive policy never becomes
/// active again.
pub proof fn lemma_step_keeps_policy_terms(s: ContractState, env: Env, action: Action, policy_id: u64)
    requires
        s.consistent(),
        s.admits(action),
        s.policies.contains_key(policy_id),
    ensures
        ({
            let t = s.step(env, action);
            let before = s.policies[policy_id];
            let after = t.policies[policy_id];
            &&& t.policies.contains_key(policy_id)
            &&& after.policy_id == before.policy_id
            &&& after.holder == before.holder
            &&& after.coverage_amount == before.coverage_amount
            &&& after.premium_paid == before.premium_paid
            &&& after.created_at == before.created_at
            &&& after.is_active ==> before.is_active
        }),
{
    match action {
        Action::RegisterPolicy { .. } => {
            assert(policy_id != s.policy_counter + 1);
        },
        _ => {},
    }
}

/// Once the insurer has deactivated a policy, every claim against it is
/// refused as filed against an inactive policy.
pub proof fn lemma_deactivated_policy_refuses_claims(
    s: ContractState,
    policy_id: u64,
    env: Env,
    claimant: Address,
    amount: i128,
    description: Seq<u8>,
)
    requires
        s.deactivate_policy(policy_id).1 is Ok,
    ensures
        ({
            let t = s.deactivate_policy(policy_id).0;
            let (u, r) = t.submit_claim(
                env.timestamp,
                env.current_contract_address,
                claimant,
                policy_id,
                amount,
                description,
            );
            r == Err::<u64, Error>(Error::PolicyNotActive) && u == t
        }),
{
}

/// A registered policy takes the next id, is active, can be read back with
/// the terms it was registered with, and ends its holder's list.
pub proof fn lemma_registered_policy_is_readable(
    s: ContractState,
    env: Env,
    holder: Address,
    coverage_amount: i128,
    premium_paid: i128,
)
    requires
        s.admin is Some,
        s.policy_counter < u64::MAX,
    ensures
        ({
            let (t, r) = s.register_policy(env.timestamp, holder, coverage_amount, premium_paid);
            let id = (s.policy_counter + 1) as u64;
            &&& r == Ok::<u64, Error>(id)
            &&& t.policy_counter == id
            &&& t.policy(id) == Ok::<Policy, Error>(
                Policy {
                    policy_id: id,
                    holder,
                    coverage_amount,
                    premium_paid,
                    is_active: true,
                    created_at: env.timestamp,
                },
            )
            &&& t.holder_policies[holder] == s.holder_policies[holder].push(id)
        }),
{
}

/// A claim that is not refused takes the next id, is pending, can be read back
/// as filed, and ends its claimant's list.
pub proof fn lemma_submitted_claim_is_pending(
    s: ContractState,
    env: Env,
    claimant: Address,
    policy_id: u64,
    amount: i128,
    description: Seq<u8>,
)
    requires
        s.claim_refusal(claimant, policy_id, amount) is None,
        s.claim_counter < u64::MAX,
    ensures
        ({
            let (t, r) = s.submit_claim(
                env.timestamp,
                env.current_contract_address,
                claimant,
                policy_id,
                amount,
                description,
            );
            let id = (s.claim_counter + 1) as u64;
            &&& r == Ok::<u64, Error>(id)
            &&& t.claim_counter == id
            &&& t.claim(id) == Ok::<ClaimView, Error>(
                ClaimView {
                    claim_id: id,
                    claimant,
                    policy_id,
                    amount,
                    description,
                    status: ClaimStatus::Pending,
                    submitted_at: env.timestamp,
                    reviewed_at: 0,
                    reviewer: env.current_contract_address,
                },
            )
            &&& t.claimant_claims[claimant] == s.claimant_claims[claimant].push(id)
        }),
{
}

/// A claim is paid only after it was approved, and approved only after it was
/// under review: the insurer's review steps succeed exactly from the status
/// before them.
pub proof fn lemma_review_steps_need_prior_status(s: ContractState, now: u64, claim_id: u64)
    requires
        s.review_refusal(claim_id) is None,
    ensures
        (s.start_review(now, claim_id).1 is Ok) == (s.claims[claim_id].status == ClaimStatus::Pending),
        (s.approve_claim(claim_id).1 is Ok) == (s.claims[claim_id].status == ClaimStatus::UnderReview),
        (s.mark_paid(claim_id).1 is Ok) == (s.claims[claim_id].status == ClaimStatus::Approved),
        (s.reject_claim(claim_id).1 is Ok) == (s.claims[claim_id].status != ClaimStatus::Paid),
{
}

/// Every accepted action was asked for by the address entitled to it, the one
/// whose signature it needs: the insurer for registering, deactivating and
/// every review step, the holder of the policy for a claim, and for
/// `initialize` the insurer it sets.
pub proof fn lemma_accepted_actions_are_entitled(s: ContractState, env: Env, action: Action)
    requires
        s.accepts(env, action),
    ensures
        match s.required_signer(action) {
            Ok(signer) => s.entitled(action, signer),
            Err(_) => false,
        },
{
}

/// A claim that an operation adds is pending.
proof fn lemma_step_new_claim_pending(s: ContractState, env: Env, action: Action, claim_id: u64)
    requires
        s.consistent(),
        s.admits(action),
        !s.claims.contains_key(claim_id),
        s.step(env, action).claims.contains_key(claim_id),
    ensures
        s.step(env, action).claims[claim_id].status == ClaimStatus::Pending,
{
}

/// Any run of admitted actions keeps a consistent contract consistent.
pub proof fn lemma_run_keeps_consistency(s: ContractState, steps: Seq<(Env, Action)>)
    requires
        s.consistent(),
        s.run_admitted(steps),
    ensures
        s.run(steps).consistent(),
    decreases steps.len(),
{
    if steps.len() > 0 {
        lemma_run_keeps_consistency(s, steps.drop_last());
        lemma_step_keeps_consistency(s.run(steps.drop_last()), steps.last().0, steps.last().1);
    }
}

/// A claim that a run of admitted actions leaves paid, and that was not paid
/// before it, was approved at some point of the run.
pub proof fn lemma_run_paid_claim_was_approved(
    s: ContractState,
    steps: Seq<(Env, Action)>,
    claim_id: u64,
)
    requires
        s.consistent(),
        s.run_admitted(steps),
        s.run(steps).claims.contains_key(claim_id),
        s.run(steps).claims[claim_id].status == ClaimStatus::Paid,
        !(s.claims.contains_key(claim_id) && s.claims[claim_id].status == ClaimStatus::Paid),
    ensures
        exists|i: int|
            0 <= i < steps.len() && #[trigger] s.run(steps.take(i)).claims.contains_key(claim_id)
                && s.run(steps.take(i)).claims[claim_id].status == ClaimStatus::Approved,
    decreases steps.len(),
{
    if steps.len() > 0 {
        let rest = steps.drop_last();
        let m = s.run(rest);
        let (env, action) = steps.last();
        lemma_run_keeps_consistency(s, rest);
        if !m.claims.contains_key(claim_id) {
            lemma_step_new_claim_pending(m, env, action, claim_id);
        } else if m.claims[claim_id].status == ClaimStatus::Paid {
            lemma_run_paid_claim_was_approved(s, rest, claim_id);
            let i = choose|i: int|
                0 <= i < rest.len() && #[trigger] s.run(rest.take(i)).claims.contains_key(claim_id)
                    && s.run(rest.take(i)).claims[claim_id].status == ClaimStatus::Approved;
            assert(rest.take(i) =~= steps.take(i));
        } else {
            lemma_step_follows_review(m, env, action, claim_id);
            assert(steps.take(rest.len() as int) =~= rest);
            assert(s.run(steps.take(rest.len() as int)).claims.contains_key(claim_id));
        }
    }
}

/// A claim that a run of admitted actions leaves approved or paid, and that
/// was pending or not yet filed before it, was under review at some point of
/// the run.
pub proof fn lemma_run_approved_claim_was_reviewed(
    s: ContractState,
    steps: Seq<(Env, Action)>,
    claim_id: u64,
)
    requires
        s.consistent(),
        s.run_admitted(steps),
        s.run(steps).claims.contains_key(claim_id),
        s.run(steps).claims[claim_id].status == ClaimStatus::Approved || s.run(steps).claims[claim_id].status
            == ClaimStatus::Paid,
        s.claims.contains_key(claim_id) ==> s.claims[claim_id].status == ClaimStatus::Pending,
    ensures
        exists|i: int|
            0 <= i < steps.len() && #[trigger] s.run(steps.take(i)).claims.contains_key(claim_id)
                && s.run(steps.take(i)).claims[claim_id].status == ClaimStatus::UnderReview,
    decreases steps.len(),
{
    if steps.len() > 0 {
        let rest = steps.drop_last();
        let m = s.run(rest);
        let (env, action) = steps.last();
        lemma_run_keeps_consistency(s, rest);
        if !m.claims.contains_key(claim_id) {
            lemma_step_new_claim_pending(m, env, action, claim_id);
        } else if m.claims[claim_id].status == ClaimStatus::Approved || m.claims[claim_id].status
            == ClaimStatus::Paid {
            lemma_run_approved_claim_was_reviewed(s, rest, claim_id);
            let i = choose|i: int|
                0 <= i < rest.len() && #[trigger] s.run(rest.take(i)).claims.contains_key(claim_id)
                    && s.run(rest.take(i)).claims[claim_id].status == ClaimStatus::UnderReview;
            assert(rest.take(i) =~= steps.take(i));
        } else {
            lemma_step_follows_review(m, env, action, claim_id);
            assert(steps.take(rest.len() as int) =~= rest);
            assert(s.run(steps.take(rest.len() as int)).claims.contains_key(claim_id));
        }
    }
}

/// Through any run of admitted actions from a contract with an insurer, the
/// claim counter grows by exactly the number of claims accepted, so that in a
/// consistent contract the stored claims are exactly those filed successfully.
pub proof fn lemma_run_counts_claims(s: ContractState, steps: Seq<(Env, Action)>)
    requires
        s.admin is Some,
        s.run_admitted(steps),
    ensures
        s.run(steps).claim_counter == s.claim_counter + s.accepted_claims(steps),
        s.run(steps).admin == s.admin,
    decreases steps.len(),
{
    if steps.len() > 0 {
        lemma_run_counts_claims(s, steps.drop_last());
    }
}

} // verus!
