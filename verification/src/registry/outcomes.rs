//! What each operation answers and changes, stated over its inputs.

use vstd::prelude::*;
use crate::address::Address;
use super::model::{required_signer, ContractState};
use super::types::{Action, ClaimStatus, ClaimView, Error, Policy};

verus! {

/// `initialize` succeeds exactly on a contract without an admin; it then sets
/// the admin and nothing else: policies, claims and counters stay.
pub proof fn lemma_initialize_outcome(s: ContractState, admin: Address)
    ensures
        ({
            let (t, r) = s.initialize(admin);
            &&& (r is Ok) == (s.admin is None)
            &&& r is Ok ==> t == ContractState { admin: Some(admin), ..s }
            &&& r is Err ==> r == Err::<(), Error>(Error::AlreadyInitialised) && t == s
        }),
{
}

/// `create_policy` always succeeds: it answers the next id and stores under it
/// an active policy of `holder` with the given terms, created now, appended to
/// the holder's list; nothing else changes.
pub proof fn lemma_create_policy_outcome(
    s: ContractState,
    now: u64,
    holder: Address,
    coverage_amount: i128,
    premium: i128,
)
    requires
        s.policy_counter < u64::MAX,
    ensures
        ({
            let (t, id) = s.create_policy(now, holder, coverage_amount, premium);
            &&& id == s.policy_counter + 1
            &&& t == ContractState {
                policy_counter: id,
                policies: s.policies.insert(
                    id,
                    Policy { policy_id: id, holder, coverage_amount, premium, active: true, created_at: now },
                ),
                holder_policies: s.holder_policies.insert(holder, s.holder_policies[holder].push(id)),
                ..s
            }
        }),
{
}

/// `deactivate_policy` succeeds exactly on a stored policy of an initialized
/// contract when the caller is the admin or the policy's holder; it then makes
/// that policy inactive, keeping its other terms, and changes nothing else.
pub proof fn lemma_deactivate_policy_outcome(s: ContractState, caller: Address, policy_id: u64)
    ensures
        ({
            let (t, r) = s.deactivate_policy(caller, policy_id);
            let p = s.policies[policy_id];
            &&& (r is Ok) == (s.admin is Some && s.policies.contains_key(policy_id) && (s.admin == Some(
                caller,
            ) || p.holder == caller))
            &&& r is Ok ==> {
                &&& !t.policies[policy_id].active
                &&& t == ContractState {
                    policies: s.policies.insert(policy_id, Policy { active: false, ..p }),
                    ..s
                }
            }
            &&& s.admin is None ==> r == Err::<(), Error>(Error::NotInitialised)
            &&& s.admin is Some && !s.policies.contains_key(policy_id) ==> r == Err::<(), Error>(
                Error::PolicyNotFound,
            )
            &&& s.admin is Some && s.policies.contains_key(policy_id) && s.admin != Some(caller)
                && p.holder != caller ==> r == Err::<(), Error>(Error::Unauthorised)
            &&& r is Err ==> t == s
        }),
{
}

/// A claim is refused exactly unless its policy exists, is active, is held by
/// the filer, and the amount is at most the coverage; the refusal names the
/// first of these that fails.
pub proof fn lemma_claim_refusal_outcome(s: ContractState, policy_holder: Address, policy_id: u64, amount: i128)
    ensures
        ({
            let r = s.claim_refusal(policy_holder, policy_id, amount);
            let p = s.policies[policy_id];
            &&& (r is None) == (s.policies.contains_key(policy_id) && p.active && p.holder == policy_holder
                && amount <= p.coverage_amount)
            &&& !s.policies.contains_key(policy_id) ==> r == Some(Error::PolicyNotFound)
            &&& s.policies.contains_key(policy_id) && !p.active ==> r == Some(Error::PolicyNotActive)
            &&& s.policies.contains_key(policy_id) && p.active && p.holder != policy_holder ==> r == Some(
                Error::NotYourPolicy,
            )
            &&& s.policies.contains_key(policy_id) && p.active && p.holder == policy_holder && amount
                > p.coverage_amount ==> r == Some(Error::ClaimExceedsCoverage)
        }),
{
}

/// `submit_claim` succeeds exactly on a claim that is not refused; it answers
/// the next claim id and stores under it a pending claim of the filer with the
/// given amount and description, created and updated now, appended to the
/// filer's list; a refused claim changes nothing.
pub proof fn lemma_submit_claim_outcome(
    s: ContractState,
    now: u64,
    policy_holder: Address,
    policy_id: u64,
    amount: i128,
    description: Seq<u8>,
)
    requires
        s.claim_counter < u64::MAX,
    ensures
        ({
            let (t, r) = s.submit_claim(now, policy_holder, policy_id, amount, description);
            let id = (s.claim_counter + 1) as u64;
            let p = s.policies[policy_id];
            &&& (r is Ok) == (s.policies.contains_key(policy_id) && p.active && p.holder == policy_holder
                && amount <= p.coverage_amount)
            &&& r is Ok ==> {
                &&& r == Ok::<u64, Error>(id)
                &&& t == ContractState {
                    claim_counter: id,
                    claims: s.claims.insert(
                        id,
                        ClaimView {
                            claim_id: id,
                            policy_holder,
                            amount,
                            description,
                            status: ClaimStatus::Pending,
                            created_at: now,
                            updated_at: now,
                        },
                    ),
                    holder_claims: s.holder_claims.insert(
                        policy_holder,
                        s.holder_claims[policy_holder].push(id),
                    ),
                    ..s
                }
            }
            &&& r is Err ==> t == s && r == Err::<u64, Error>(
                s.claim_refusal(policy_holder, policy_id, amount)->0,
            )
        }),
{
}

/// `update_claim_status` succeeds exactly when the caller is the admin and the
/// claim is stored; the claim then has exactly the requested status and was
/// updated now, its other fields kept; nothing else changes.
pub proof fn lemma_update_claim_status_outcome(
    s: ContractState,
    now: u64,
    admin: Address,
    claim_id: u64,
    status: ClaimStatus,
)
    ensures
        ({
            let (t, r) = s.update_claim_status(now, admin, claim_id, status);
            let c = s.claims[claim_id];
            &&& (r is Ok) == (s.admin == Some(admin) && s.claims.contains_key(claim_id))
            &&& r is Ok ==> {
                &&& t.claims[claim_id].status == status
                &&& t.claims[claim_id].updated_at == now
                &&& t == ContractState {
                    claims: s.claims.insert(claim_id, ClaimView { status, updated_at: now, ..c }),
                    ..s
                }
            }
            &&& s.admin is None ==> r == Err::<(), Error>(Error::NotInitialised)
            &&& s.admin is Some && s.admin != Some(admin) ==> r == Err::<(), Error>(Error::OnlyAdmin)
            &&& s.admin == Some(admin) && !s.claims.contains_key(claim_id) ==> r == Err::<(), Error>(
                Error::ClaimNotFound,
            )
            &&& r is Err ==> t == s
        }),
{
}

/// The queries read the stored values: a claim or a policy by its id, the
/// admin once there is one; the signer an action needs is the address it acts
/// for, and none for `initialize`.
pub proof fn lemma_queries_read_the_state(s: ContractState, id: u64, action: Action)
    ensures
        s.claim(id) == if s.claims.contains_key(id) {
            Ok::<ClaimView, Error>(s.claims[id])
        } else {
            Err::<ClaimView, Error>(Error::ClaimNotFound)
        },
        s.policy(id) == if s.policies.contains_key(id) {
            Ok::<Policy, Error>(s.policies[id])
        } else {
            Err::<Policy, Error>(Error::PolicyNotFound)
        },
        s.admin is Some ==> s.admin_address() == Ok::<Address, Error>(s.admin->0),
        s.admin is None ==> s.admin_address() == Err::<Address, Error>(Error::NotInitialised),
        match action {
            Action::Initialize { .. } => required_signer(action) == None::<Address>,
            Action::CreatePolicy { holder, .. } => required_signer(action) == Some(holder),
            Action::DeactivatePolicy { caller, .. } => required_signer(action) == Some(caller),
            Action::SubmitClaim { policy_holder, .. } => required_signer(action) == Some(policy_holder),
            Action::UpdateClaimStatus { admin, .. } => required_signer(action) == Some(admin),
        },
{
}

} // verus!
