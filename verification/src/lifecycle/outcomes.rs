//! What each operation answers and changes, stated over its inputs.

use vstd::prelude::*;
use crate::address::Address;
use super::model::ContractState;
use super::types::{ClaimStatus, ClaimView, Error, Policy};

verus! {

/// `initialize` succeeds exactly on a contract without an insurer; it then
/// sets the insurer (the counters are 0 there already) and nothing else.
pub proof fn lemma_initialize_outcome(s: ContractState, admin: Address)
    requires
        s.consistent(),
    ensures
        ({
            let (t, r) = s.initialize(admin);
            &&& (r is Ok) == (s.admin is None)
            &&& r is Ok ==> t == ContractState { admin: Some(admin), ..s }
            &&& r is Err ==> r == Err::<(), Error>(Error::AlreadyInitialized) && t == s
        }),
{
}

/// `register_policy` succeeds exactly once there is an insurer; it answers the
/// next id and stores under it an active policy of `holder` with the given
/// terms, created now, appended to the holder's list; nothing else changes.
pub proof fn lemma_register_policy_outcome(
    s: ContractState,
    now: u64,
    holder: Address,
    coverage_amount: i128,
    premium_paid: i128,
)
    requires
        s.policy_counter < u64::MAX,
    ensures
        ({
            let (t, r) = s.register_policy(now, holder, coverage_amount, premium_paid);
            let id = (s.policy_counter + 1) as u64;
            &&& (r is Ok) == (s.admin is Some)
            &&& r is Ok ==> {
                &&& r == Ok::<u64, Error>(id)
                &&& t == ContractState {
                    policy_counter: id,
                    policies: s.policies.insert(
                        id,
                        Policy {
                            policy_id: id,
                            holder,
                            coverage_amount,
                            premium_paid,
                            is_active: true,
                            created_at: now,
                        },
                    ),
                    holder_policies: s.holder_policies.insert(holder, s.holder_policies[holder].push(id)),
                    ..s
                }
            }
            &&& r is Err ==> r == Err::<u64, Error>(Error::NotInitialized) && t == s
        }),
{
}

/// `deactivate_policy` succeeds exactly on a stored policy of an initialized
/// contract; it then makes that policy inactive, keeping its other terms, and
/// changes nothing else.
pub proof fn lemma_deactivate_policy_outcome(s: ContractState, policy_id: u64)
    ensures
        ({
            let (t, r) = s.deactivate_policy(policy_id);
            &&& (r is Ok) == (s.admin is Some && s.policies.contains_key(policy_id))
            &&& r is Ok ==> {
                &&& t.policies.contains_key(policy_id)
                &&& !t.policies[policy_id].is_active
                &&& t == ContractState {
                    policies: s.policies.insert(
                        policy_id,
                        Policy { is_active: false, ..s.policies[policy_id] },
                    ),
                    ..s
                }
            }
            &&& s.admin is None ==> r == Err::<(), Error>(Error::NotInitialized)
            &&& s.admin is Some && !s.policies.contains_key(policy_id) ==> r == Err::<(), Error>(
                Error::PolicyNotFound,
            )
            &&& r is Err ==> t == s
        }),
{
}

/// A claim is refused exactly unless its policy exists, is active, is held by
/// the claimant, and `0 < amount <= coverage`; the refusal names the first of
/// these that fails.
pub proof fn lemma_claim_refusal_outcome(s: ContractState, claimant: Address, policy_id: u64, amount: i128)
    ensures
        ({
            let r = s.claim_refusal(claimant, policy_id, amount);
            let p = s.policies[policy_id];
            &&& (r is None) == (s.policies.contains_key(policy_id) && p.is_active && p.holder == claimant
                && 0 < amount && amount <= p.coverage_amount)
            &&& !s.policies.contains_key(policy_id) ==> r == Some(Error::PolicyNotFound)
            &&& s.policies.contains_key(policy_id) && !p.is_active ==> r == Some(Error::PolicyNotActive)
            &&& s.policies.contains_key(policy_id) && p.is_active && p.holder != claimant ==> r == Some(
                Error::NotPolicyHolder,
            )
            &&& s.policies.contains_key(policy_id) && p.is_active && p.holder == claimant && amount
                > p.coverage_amount ==> r == Some(Error::ExceedsCoverage)
            &&& s.policies.contains_key(policy_id) && p.is_active && p.holder == claimant && amount
                <= p.coverage_amount && amount <= 0 ==> r == Some(Error::NonPositiveAmount)
        }),
{
}

/// `submit_claim` succeeds exactly on a claim that is not refused; it answers
/// the next claim id and stores under it a pending claim with the given
/// claimant, policy, amount and description, filed now, not yet reviewed, with
/// the contract as handler, appended to the claimant's list; a refused claim
/// changes nothing.
pub proof fn lemma_submit_claim_outcome(
    s: ContractState,
    now: u64,
    contract: Address,
    claimant: Address,
    policy_id: u64,
    amount: i128,
    description: Seq<u8>,
)
    requires
        s.claim_counter < u64::MAX,
    ensures
        ({
            let (t, r) = s.submit_claim(now, contract, claimant, policy_id, amount, description);
            let id = (s.claim_counter + 1) as u64;
            let p = s.policies[policy_id];
            &&& (r is Ok) == (s.policies.contains_key(policy_id) && p.is_active && p.holder == claimant
                && 0 < amount && amount <= p.coverage_amount)
            &&& r is Ok ==> {
                &&& r == Ok::<u64, Error>(id)
                &&& t == ContractState {
                    claim_counter: id,
                    claims: s.claims.insert(
                        id,
                        ClaimView {
                            claim_id: id,
                            claimant,
                            policy_id,
                            amount,
                            description,
                            status: ClaimStatus::Pending,
                            submitted_at: now,
                            reviewed_at: 0,
                            reviewer: contract,
                        },
                    ),
                    claimant_claims: s.claimant_claims.insert(
                        claimant,
                        s.claimant_claims[claimant].push(id),
                    ),
                    ..s
                }
            }
            &&& r is Err ==> t == s && r == Err::<u64, Error>(
                s.claim_refusal(claimant, policy_id, amount)->0,
            )
        }),
{
}

/// Whether the insurer can act on claim `claim_id`: there is an insurer and
/// the claim is stored.
pub open spec fn reviewable(s: ContractState, claim_id: u64) -> bool {
    s.admin is Some && s.claims.contains_key(claim_id)
}

/// The error a review step answers when the insurer cannot act on the claim.
pub open spec fn unreviewable_error(s: ContractState) -> Error {
    if s.admin is None {
        Error::NotInitialized
    } else {
        Error::ClaimNotFound
    }
}

/// `start_review` succeeds exactly on a stored pending claim of an initialized
/// contract; the claim is then under review, reviewed now by the insurer, its
/// other fields kept; nothing else changes.
pub proof fn lemma_start_review_outcome(s: ContractState, now: u64, claim_id: u64)
    ensures
        ({
            let (t, r) = s.start_review(now, claim_id);
            let c = s.claims[claim_id];
            &&& (r is Ok) == (reviewable(s, claim_id) && c.status == ClaimStatus::Pending)
            &&& r is Ok ==> t == ContractState {
                claims: s.claims.insert(
                    claim_id,
                    ClaimView {
                        status: ClaimStatus::UnderReview,
                        reviewed_at: now,
                        reviewer: s.admin->0,
                        ..c
                    },
                ),
                ..s
            }
            &&& !reviewable(s, claim_id) ==> r == Err::<(), Error>(unreviewable_error(s))
            &&& reviewable(s, claim_id) && c.status != ClaimStatus::Pending ==> r == Err::<(), Error>(
                Error::NotPending,
            )
            &&& r is Err ==> t == s
        }),
{
}

/// `approve_claim` succeeds exactly on a stored claim under review of an
/// initialized contract; the claim is then approved with the insurer as its
/// handler, its other fields kept; nothing else changes.
pub proof fn lemma_approve_claim_outcome(s: ContractState, claim_id: u64)
    ensures
        ({
            let (t, r) = s.approve_claim(claim_id);
            let c = s.claims[claim_id];
            &&& (r is Ok) == (reviewable(s, claim_id) && c.status == ClaimStatus::UnderReview)
            &&& r is Ok ==> {
                &&& t.claims[claim_id].status == ClaimStatus::Approved
                &&& t == ContractState {
                    claims: s.claims.insert(
                        claim_id,
                        ClaimView { status: ClaimStatus::Approved, reviewer: s.admin->0, ..c },
                    ),
                    ..s
                }
            }
            &&& !reviewable(s, claim_id) ==> r == Err::<(), Error>(unreviewable_error(s))
            &&& reviewable(s, claim_id) && c.status != ClaimStatus::UnderReview ==> r == Err::<
                (),
                Error,
            >(Error::NotUnderReview)
            &&& r is Err ==> t == s
        }),
{
}

/// `reject_claim` succeeds exactly on a stored unpaid claim of an initialized
/// contract, whatever else its status; the claim is then rejected with the
/// insurer as its handler, its other fields kept; nothing else changes.
pub proof fn lemma_reject_claim_outcome(s: ContractState, claim_id: u64)
    ensures
        ({
            let (t, r) = s.reject_claim(claim_id);
            let c = s.claims[claim_id];
            &&& (r is Ok) == (reviewable(s, claim_id) && c.status != ClaimStatus::Paid)
            &&& r is Ok ==> {
                &&& t.claims[claim_id].status == ClaimStatus::Rejected
                &&& t == ContractState {
                    claims: s.claims.insert(
                        claim_id,
                        ClaimView { status: ClaimStatus::Rejected, reviewer: s.admin->0, ..c },
                    ),
                    ..s
                }
            }
            &&& !reviewable(s, claim_id) ==> r == Err::<(), Error>(unreviewable_error(s))
            &&& reviewable(s, claim_id) && c.status == ClaimStatus::Paid ==> r == Err::<(), Error>(
                Error::AlreadyPaid,
            )
            &&& r is Err ==> t == s
        }),
{
}

/// `mark_paid` succeeds exactly on a stored approved claim of an initialized
/// contract; the claim is then paid, its other fields kept; nothing else
/// changes.
pub proof fn lemma_mark_paid_outcome(s: ContractState, claim_id: u64)
    ensures
        ({
            let (t, r) = s.mark_paid(claim_id);
            let c = s.claims[claim_id];
            &&& (r is Ok) == (reviewable(s, claim_id) && c.status == ClaimStatus::Approved)
            &&& r is Ok ==> {
                &&& t.claims[claim_id].status == ClaimStatus::Paid
                &&& t == ContractState {
                    claims: s.claims.insert(claim_id, ClaimView { status: ClaimStatus::Paid, ..c }),
                    ..s
                }
            }
            &&& !reviewable(s, claim_id) ==> r == Err::<(), Error>(unreviewable_error(s))
            &&& reviewable(s, claim_id) && c.status != ClaimStatus::Approved ==> r == Err::<(), Error>(
                Error::NotApproved,
            )
            &&& r is Err ==> t == s
        }),
{
}

} // verus!

verus! {

/// The queries read the stored values: a claim or a policy by its id, the
/// insurer once there is one; the signer an action needs is the insurer, the
/// claimant of a claim, or the new insurer.
pub proof fn lemma_queries_read_the_state(s: ContractState, id: u64, action: super::types::Action)
    ensures
        s.claim(id) == if s.claims.contains_key(id) {
            Ok::<ClaimView, Error>(s.claims[id])
        } else {
            Err::<ClaimView, Error>(Error::ClaimNotFound)
        },
        s.policy(id) == if s.policies.contains_key(id) {
            Ok::<Policy, Error>(s.policies[id])
        } else {
            Err::<Policy, Error>(Error::PolicyNotFound)
        },
        (s.admin_address() is Ok) == (s.admin is Some),
        s.admin is Some ==> s.admin_address() == Ok::<Address, Error>(s.admin->0),
        s.admin is None ==> s.admin_address() == Err::<Address, Error>(Error::NotInitialized),
        match action {
            super::types::Action::Initialize { admin } => s.required_signer(action) == if s.admin is None {
                Ok::<Address, Error>(admin)
            } else {
                Err::<Address, Error>(Error::AlreadyInitialized)
            },
            super::types::Action::SubmitClaim { claimant, .. } => s.required_signer(action) == Ok::<
                Address,
                Error,
            >(claimant),
            _ => s.required_signer(action) == if s.admin is Some {
                Ok::<Address, Error>(s.admin->0)
            } else {
                Err::<Address, Error>(Error::NotInitialized)
            },
        },
{
}

} // verus!
