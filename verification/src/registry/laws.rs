use vstd::prelude::*;
use crate::address::Address;
use crate::env::Env;
use crate::holder_index::lemma_owned_ids_frame;
use super::model::{claim_ids_of, claim_owner, policy_ids_of, policy_owner, required_signer, ContractState};
use super::types::{Action, ClaimStatus, ClaimView, Error, Policy};

verus! {

impl ContractState {
    /// The state after `action` is invoked in `env`, and what it answers
    /// (the id it hands out, if any).
    pub open spec fn apply(self, env: Env, action: Action) -> (ContractState, Result<Option<u64>, Error>) {
        match action {
            Action::Initialize { admin } => {
                let (t, r) = self.initialize(admin);
                (t, match r { Ok(_) => Ok(None), Err(e) => Err(e) })
            },
            Action::CreatePolicy { holder, coverage_amount, premium } => {
                let (t, id) = self.create_policy(env.timestamp, holder, coverage_amount, premium);
                (t, Ok(Some(id)))
            },
            Action::DeactivatePolicy { caller, policy_id } => {
                let (t, r) = self.deactivate_policy(caller, policy_id);
                (t, match r { Ok(_) => Ok(None), Err(e) => Err(e) })
            },
            Action::SubmitClaim { policy_holder, policy_id, amount, description } => {
                let (t, r) = self.submit_claim(
                    env.timestamp,
                    policy_holder,
                    policy_id,
                    amount,
                    description@,
                );
                (t, match r { Ok(id) => Ok(Some(id)), Err(e) => Err(e) })
            },
            Action::UpdateClaimStatus { admin, claim_id, status } => {
                let (t, r) = self.update_claim_status(env.timestamp, admin, claim_id, status);
                (t, match r { Ok(_) => Ok(None), Err(e) => Err(e) })
            },
        }
    }

    /// The state after `action` is invoked in `env`.
    pub open spec fn step(self, env: Env, action: Action) -> ContractState {
        self.apply(env, action).0
    }

    /// Whether `action` can be invoked without running a counter past `u64::MAX`
    /// (the inputs that the operations' `requires` admit).
    pub open spec fn admits(self, action: Action) -> bool {
        match action {
            Action::CreatePolicy { .. } => self.policy_counter < u64::MAX,
            Action::SubmitClaim { policy_holder, policy_id, amount, .. } => self.claim_refusal(
                policy_holder,
                policy_id,
                amount,
            ) is None ==> self.claim_counter < u64::MAX,
            _ => true,
        }
    }

    /// Whether `signer` is entitled to have `action` carried out: the holder
    /// of the policy it deactivates or claims against (or, for deactivation,
    /// the admin), the admin for a claim update, the holder it creates a
    /// policy for.
    pub open spec fn entitled(self, action: Action, signer: Address) -> bool {
        match action {
            Action::Initialize { .. } => true,
            Action::CreatePolicy { holder, .. } => signer == holder,
            Action::DeactivatePolicy { policy_id, .. } => self.admin == Some(signer)
                || signer == self.policies[policy_id].holder,
            Action::SubmitClaim { policy_id, .. } => signer == self.policies[policy_id].holder,
            Action::UpdateClaimStatus { .. } => self.admin == Some(signer),
        }
    }

    /// The state after the actions of `steps`, each in its ledger, in order.
    pub open spec fn run(self, steps: Seq<(Env, Action)>) -> ContractState
        decreases steps.len(),
    {
        if steps.len() == 0 {
            self
        } else {
            self.run(steps.drop_last()).step(steps.last().0, steps.last().1)
        }
    }

    /// Whether each action of `steps` is admitted in the state it meets.
    pub open spec fn run_admitted(self, steps: Seq<(Env, Action)>) -> bool
        decreases steps.len(),
    {
        steps.len() == 0 || (self.run_admitted(steps.drop_last()) && self.run(
            steps.drop_last(),
        ).admits(steps.last().1))
    }

    /// How many claims the actions of `steps` file successfully.
    pub open spec fn accepted_claims(self, steps: Seq<(Env, Action)>) -> nat
        decreases steps.len(),
    {
        if steps.len() == 0 {
            0
        } else {
            let before = self.run(steps.drop_last());
            self.accepted_claims(steps.drop_last()) + match steps.last().1 {
                Action::SubmitClaim { policy_holder, policy_id, amount, .. } => if before.claim_refusal(
                    policy_holder,
                    policy_id,
                    amount,
                ) is None {
                    1nat
                } else {
                    0nat
                },
                _ => 0nat,
            }
        }
    }
}

/// Whether `action` deactivates policy `policy_id`.
pub open spec fn deactivates(action: Action, policy_id: u64) -> bool {
    action matches Action::DeactivatePolicy { policy_id: p, .. } && p == policy_id
}

/// Whether `action` updates claim `claim_id`.
pub open spec fn updates(action: Action, claim_id: u64) -> bool {
    action matches Action::UpdateClaimStatus { claim_id: c, .. } && c == claim_id
}

/// A freshly deployed contract is indexed.
pub proof fn lemma_empty_is_indexed()
    ensures
        ContractState::empty().indexed(),
{
    let s = ContractState::empty();
    assert forall|h: Address| #[trigger] s.holder_policies[h] == policy_ids_of(s.policies, h, 0) by {}
    assert forall|h: Address| #[trigger] s.holder_claims[h] == claim_ids_of(s.claims, h, 0) by {}
}

/// Every operation keeps an indexed state indexed: ids run from 1 to the
/// counters, and the per-holder lists hold exactly the ids of that holder's
/// policies and claims, in increasing order.
pub proof fn lemma_step_keeps_index(s: ContractState, env: Env, action: Action)
    requires
        s.indexed(),
        s.admits(action),
    ensures
        s.step(env, action).indexed(),
{
    let t = s.step(env, action);
    match action {
        Action::Initialize { admin } => {},
        Action::CreatePolicy { holder, coverage_amount, premium } => {
            let id = (s.policy_counter + 1) as u64;
            assert forall|h: Address| #[trigger] t.holder_policies[h] == policy_ids_of(
                t.policies,
                h,
                t.policy_counter as nat,
            ) by {
                lemma_owned_ids_frame(s.policies, t.policies, policy_owner(), h, s.policy_counter as nat);
                assert(t.policies[id].holder == holder);
            }
            assert forall|k: u64| #[trigger] t.policies.contains_key(k) implies t.policies[k].policy_id
                == k by {
                if k != id {
                    assert(s.policies.contains_key(k));
                }
            }
        },
        Action::DeactivatePolicy { caller, policy_id } => {
            assert forall|h: Address| #[trigger] t.holder_policies[h] == policy_ids_of(
                t.policies,
                h,
                t.policy_counter as nat,
            ) by {
                lemma_owned_ids_frame(s.policies, t.policies, policy_owner(), h, s.policy_counter as nat);
            }
        },
        Action::SubmitClaim { policy_holder, policy_id, amount, description } => {
            if s.claim_refusal(policy_holder, policy_id, amount) is None {
                let id = (s.claim_counter + 1) as u64;
                assert forall|h: Address| #[trigger] t.holder_claims[h] == claim_ids_of(
                    t.claims,
                    h,
                    t.claim_counter as nat,
                ) by {
                    lemma_owned_ids_frame(s.claims, t.claims, claim_owner(), h, s.claim_counter as nat);
                    assert(t.claims[id].policy_holder == policy_holder);
                }
                assert forall|k: u64| #[trigger] t.claims.contains_key(k) implies t.claims[k].claim_id
                    == k by {
                    if k != id {
                        assert(s.claims.contains_key(k));
                    }
                }
            }
        },
        Action::UpdateClaimStatus { admin, claim_id, status } => {
            assert forall|h: Address| #[trigger] t.holder_claims[h] == claim_ids_of(
                t.claims,
                h,
                t.claim_counter as nat,
            ) by {
                lemma_owned_ids_frame(s.claims, t.claims, claim_owner(), h, s.claim_counter as nat);
            }
        },
    }
}

/// A policy, once created, keeps its id, holder, coverage, premium and
/// creation time; only its own deactivation changes it, and only to inactive.
pub proof fn lemma_step_keeps_policy_terms(s: ContractState, env: Env, action: Action, policy_id: u64)
    requires
        s.indexed(),
        s.admits(action),
        s.policies.contains_key(policy_id),
    ensures
        ({
            let t = s.step(env, action);
            let before = s.policies[policy_id];
            let after = t.policies[policy_id];
            &&& t.policies.contains_key(policy_id)
            &&& !deactivates(action, policy_id) ==> after == before
            &&& after == (Policy { active: after.active, ..before })
            &&& after.active ==> before.active
        }),
{
    match action {
        Action::CreatePolicy { .. } => {
            assert(policy_id != s.policy_counter + 1);
        },
        _ => {},
    }
}

/// A claim, once filed, keeps its id, filer, amount, description and filing
/// time; only an update of that claim changes it, and only its status and the
/// time of the change.
pub proof fn lemma_step_keeps_claim_terms(s: ContractState, env: Env, action: Action, claim_id: u64)
    requires
        s.indexed(),
        s.admits(action),
        s.claims.contains_key(claim_id),
    ensures
        ({
            let t = s.step(env, action);
            let before = s.claims[claim_id];
            let after = t.claims[claim_id];
            &&& t.claims.contains_key(claim_id)
            &&& !updates(action, claim_id) ==> after == before
            &&& after == (ClaimView { status: after.status, updated_at: after.updated_at, ..before })
        }),
{
    match action {
        Action::SubmitClaim { .. } => {
            assert(claim_id != s.claim_counter + 1);
        },
        _ => {},
    }
}

/// Every accepted action was asked for by an address entitled to it, the one
/// whose signature it needs: the holder creating a policy or filing a claim
/// against its policy, the admin or the holder deactivating a policy, the admin
/// updating a claim.
pub proof fn lemma_accepted_actions_are_entitled(s: ContractState, env: Env, action: Action)
    requires
        s.apply(env, action).1 is Ok,
    ensures
        match required_signer(action) {
            Some(signer) => s.entitled(action, signer),
            None => action is Initialize && s.admin is None,
        },
{
}

/// Once a policy has been deactivated, every claim against it is refused as
/// filed against an inactive policy.
pub proof fn lemma_deactivated_policy_refuses_claims(
    s: ContractState,
    caller: Address,
    policy_id: u64,
    now: u64,
    policy_holder: Address,
    amount: i128,
    description: Seq<u8>,
)
    requires
        s.deactivate_policy(caller, policy_id).1 is Ok,
    ensures
        ({
            let t = s.deactivate_policy(caller, policy_id).0;
            let (u, r) = t.submit_claim(now, policy_holder, policy_id, amount, description);
            r == Err::<u64, Error>(Error::PolicyNotActive) && u == t
        }),
{
}

/// A claim is accepted only from the holder of an active policy and only up to
/// the policy's coverage; any other claim is refused and changes nothing.
pub proof fn lemma_accepted_claim_within_coverage(
    s: ContractState,
    now: u64,
    policy_holder: Address,
    policy_id: u64,
    amount: i128,
    description: Seq<u8>,
)
    ensures
        ({
            let (t, r) = s.submit_claim(now, policy_holder, policy_id, amount, description);
            &&& r is Ok <==> {
                &&& s.policies.contains_key(policy_id)
                &&& s.policies[policy_id].active
                &&& s.policies[policy_id].holder == policy_holder
                &&& amount <= s.policies[policy_id].coverage_amount
            }
            &&& r is Err ==> t == s
        }),
{
}

/// Only the admin changes the status of a claim: anyone else is refused and
/// nothing changes.
pub proof fn lemma_only_admin_updates_claims(
    s: ContractState,
    now: u64,
    caller: Address,
    claim_id: u64,
    status: ClaimStatus,
)
    requires
        s.admin != Some(caller),
    ensures
        ({
            let (t, r) = s.update_claim_status(now, caller, claim_id, status);
            r is Err && t == s
        }),
{
}

/// A created policy takes the next id, is active, can be read back with the
/// terms it was created with, and ends its holder's list.
pub proof fn lemma_created_policy_is_readable(
    s: ContractState,
    env: Env,
    holder: Address,
    coverage_amount: i128,
    premium: i128,
)
    requires
        s.policy_counter < u64::MAX,
    ensures
        ({
            let (t, id) = s.create_policy(env.timestamp, holder, coverage_amount, premium);
            &&& id == s.policy_counter + 1
            &&& t.policy_counter == id
            &&& t.policy(id) == Ok::<Policy, Error>(
                Policy {
                    policy_id: id,
                    holder,
                    coverage_amount,
                    premium,
                    active: true,
                    created_at: env.timestamp,
                },
            )
            &&& t.holder_policies[holder] == s.holder_policies[holder].push(id)
        }),
{
}

/// In an indexed contract a created policy takes an id that no stored policy
/// has, so it never replaces one.
pub proof fn lemma_created_policy_is_new(
    s: ContractState,
    env: Env,
    holder: Address,
    coverage_amount: i128,
    premium: i128,
)
    requires
        s.indexed(),
        s.policy_counter < u64::MAX,
    ensures
        ({
            let (t, id) = s.create_policy(env.timestamp, holder, coverage_amount, premium);
            &&& !s.policies.contains_key(id)
            &&& forall|k: u64| #[trigger] s.policies.contains_key(k) ==> t.policies[k] == s.policies[k]
        }),
{
}

/// An accepted claim takes the next id, is pending, can be read back as filed,
/// and ends its filer's list.
pub proof fn lemma_submitted_claim_is_pending(
    s: ContractState,
    env: Env,
    policy_holder: Address,
    policy_id: u64,
    amount: i128,
    description: Seq<u8>,
)
    requires
        s.claim_refusal(policy_holder, policy_id, amount) is None,
        s.claim_counter < u64::MAX,
    ensures
        ({
            let (t, r) = s.submit_claim(env.timestamp, policy_holder, policy_id, amount, description);
            let id = (s.claim_counter + 1) as u64;
            &&& r == Ok::<u64, Error>(id)
            &&& t.claim_counter == id
            &&& t.claim(id) == Ok::<ClaimView, Error>(
                ClaimView {
                    claim_id: id,
                    policy_holder,
                    amount,
                    description,
                    status: ClaimStatus::Pending,
                    created_at: env.timestamp,
                    updated_at: env.timestamp,
                },
            )
            &&& t.holder_claims[policy_holder] == s.holder_claims[policy_holder].push(id)
        }),
{
}

// ── runs of several operations ──────────────────────────────────────────────

/// Any run of admitted actions keeps an indexed contract indexed: the
/// per-holder lists of policies and of claims hold exactly that holder's ids,
/// in the order they were handed out.
pub proof fn lemma_run_keeps_index(s: ContractState, steps: Seq<(Env, Action)>)
    requires
        s.indexed(),
        s.run_admitted(steps),
    ensures
        s.run(steps).indexed(),
    decreases steps.len(),
{
    if steps.len() > 0 {
        lemma_run_keeps_index(s, steps.drop_last());
        lemma_step_keeps_index(s.run(steps.drop_last()), steps.last().0, steps.last().1);
    }
}

/// A policy stays as it was, active included, through any run of admitted
/// actions none of which deactivates it.
pub proof fn lemma_run_keeps_policy_unless_deactivated(
    s: ContractState,
    steps: Seq<(Env, Action)>,
    policy_id: u64,
)
    requires
        s.indexed(),
        s.run_admitted(steps),
        s.policies.contains_key(policy_id),
        forall|i: int| 0 <= i < steps.len() ==> !deactivates(#[trigger] steps[i].1, policy_id),
    ensures
        s.run(steps).policies.contains_key(policy_id),
        s.run(steps).policies[policy_id] == s.policies[policy_id],
    decreases steps.len(),
{
    if steps.len() > 0 {
        let rest = steps.drop_last();
        assert forall|i: int| 0 <= i < rest.len() implies !deactivates(#[trigger] rest[i].1, policy_id) by {
            assert(rest[i] == steps[i]);
        }
        lemma_run_keeps_policy_unless_deactivated(s, rest, policy_id);
        lemma_run_keeps_index(s, rest);
        assert(!deactivates(steps[steps.len() - 1].1, policy_id));
        lemma_step_keeps_policy_terms(s.run(rest), steps.last().0, steps.last().1, policy_id);
    }
}

/// Through any run of admitted actions, the claim counter grows by exactly the
/// number of claims accepted, so that in an indexed contract the stored claims
/// are exactly those filed successfully.
pub proof fn lemma_run_counts_claims(s: ContractState, steps: Seq<(Env, Action)>)
    requires
        s.run_admitted(steps),
    ensures
        s.run(steps).claim_counter == s.claim_counter + s.accepted_claims(steps),
    decreases steps.len(),
{
    if steps.len() > 0 {
        lemma_run_counts_claims(s, steps.drop_last());
    }
}

} // verus!
