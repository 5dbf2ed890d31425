use std::collections::HashMap;
use vstd::prelude::*;
use crate::address::Address;
use crate::env::Env;
use crate::bytes::copy_bytes;
use crate::holder_index::HolderIndex;
use super::model::ContractState;
use super::types::{
    claim_result_view,
    claims_view,
    lemma_claims_view_insert,
    Action,
    Claim,
    ClaimStatus,
    Error,
    Policy,
};

verus! {

broadcast use vstd::std_specs::hash::group_hash_axioms;

/// The contract and its storage. Each operation is invoked with the ledger's
/// `Env`, after the ledger has checked the authorizations it asks for: the
/// insurer's for registering, deactivating and reviewing, the claimant's for
/// filing a claim.
pub struct InsuranceClaimsContract {
    pub admin: Option<Address>,
    pub claim_counter: u64,
    pub policy_counter: u64,
    pub policies: HashMap<u64, Policy>,
    pub claims: HashMap<u64, Claim>,
    pub holder_policies: HolderIndex,
    pub claimant_claims: HolderIndex,
}

impl View for InsuranceClaimsContract {
    type V = ContractState;

    open spec fn view(&self) -> ContractState {
        ContractState {
            admin: self.admin,
            claim_counter: self.claim_counter,
            policy_counter: self.policy_counter,
            policies: self.policies@,
            claims: claims_view(self.claims@),
            holder_policies: self.holder_policies@,
            claimant_claims: self.claimant_claims@,
        }
    }
}

/// A copy of `c`.
fn copy_claim(c: &Claim) -> (res: Claim)
    ensures
        res@ == c@,
{
    Claim {
        claim_id: c.claim_id,
        claimant: c.claimant,
        policy_id: c.policy_id,
        amount: c.amount,
        description: copy_bytes(&c.description),
        status: c.status,
        submitted_at: c.submitted_at,
        reviewed_at: c.reviewed_at,
        reviewer: c.reviewer,
    }
}

impl InsuranceClaimsContract {
    /// A freshly deployed contract: no insurer, no policy, no claim.
    pub fn new() -> (res: InsuranceClaimsContract)
        ensures
            res@ == ContractState::empty(),
    {
        let res = InsuranceClaimsContract {
            admin: None,
            claim_counter: 0,
            policy_counter: 0,
            policies: HashMap::new(),
            claims: HashMap::new(),
            holder_policies: HolderIndex::new(),
            claimant_claims: HolderIndex::new(),
        };
        assert(claims_view(res.claims@) =~= Map::empty());
        res
    }

    /// Sets the insurer (who has authorized it); refused once there is one.
    pub fn initialize(&mut self, admin: Address) -> (res: Result<(), Error>)
        ensures
            (final(self)@, res) == old(self)@.initialize(admin),
    {
        if self.admin.is_some() {
            return Err(Error::AlreadyInitialized);
        }
        self.admin = Some(admin);
        self.claim_counter = 0;
        self.policy_counter = 0;
        Ok(())
    }

    /// The address whose signature `action` needs, or why it is refused
    /// before any signature is asked for.
    pub fn required_signer(&self, action: &Action) -> (res: Result<Address, Error>)
        ensures
            res == self@.required_signer(*action),
    {
        match action {
            Action::Initialize { admin } => if self.admin.is_some() {
                Err(Error::AlreadyInitialized)
            } else {
                Ok(*admin)
            },
            Action::SubmitClaim { claimant, .. } => Ok(*claimant),
            _ => self.get_admin(),
        }
    }

    /// Why a claim of `amount` by `claimant` against `policy_id` would be
    /// refused, if it would.
    pub fn claim_refusal(&self, claimant: Address, policy_id: u64, amount: i128) -> (res: Option<Error>)
        ensures
            res == self@.claim_refusal(claimant, policy_id, amount),
    {
        let policy = match self.policies.get(&policy_id) {
            Some(p) => *p,
            None => return Some(Error::PolicyNotFound),
        };
        if !policy.is_active {
            return Some(Error::PolicyNotActive);
        }
        if policy.holder != claimant {
            return Some(Error::NotPolicyHolder);
        }
        if amount > policy.coverage_amount {
            return Some(Error::ExceedsCoverage);
        }
        if amount <= 0 {
            return Some(Error::NonPositiveAmount);
        }
        None
    }

    /// Takes the next policy id and records it as the last one used.
    fn next_policy_id(&mut self) -> (id: u64)
        requires
            old(self).policy_counter < u64::MAX,
        ensures
            id == old(self).policy_counter + 1,
            final(self)@ == (ContractState { policy_counter: id, ..old(self)@ }),
    {
        let id = self.policy_counter + 1;
        self.policy_counter = id;
        id
    }

    /// Takes the next claim id and records it as the last one used.
    fn next_claim_id(&mut self) -> (id: u64)
        requires
            old(self).claim_counter < u64::MAX,
        ensures
            id == old(self).claim_counter + 1,
            final(self)@ == (ContractState { claim_counter: id, ..old(self)@ }),
    {
        let id = self.claim_counter + 1;
        self.claim_counter = id;
        id
    }

    /// The insurer registers an active policy for `holder`; answers its id.
    pub fn register_policy(
        &mut self,
        env: &Env,
        holder: Address,
        coverage_amount: i128,
        premium_paid: i128,
    ) -> (res: Result<u64, Error>)
        requires
            old(self).admin is Some ==> old(self).policy_counter < u64::MAX,
        ensures
            (final(self)@, res) == old(self)@.register_policy(
                env.timestamp,
                holder,
                coverage_amount,
                premium_paid,
            ),
    {
        if self.admin.is_none() {
            return Err(Error::NotInitialized);
        }
        let policy_id = self.next_policy_id();
        let policy = Policy {
            policy_id,
            holder,
            coverage_amount,
            premium_paid,
            is_active: true,
            created_at: env.timestamp,
        };
        self.policies.insert(policy_id, policy);
        self.holder_policies.push(holder, policy_id);
        Ok(policy_id)
    }

    /// The insurer marks policy `policy_id` inactive.
    pub fn deactivate_policy(&mut self, policy_id: u64) -> (res: Result<(), Error>)
        ensures
            (final(self)@, res) == old(self)@.deactivate_policy(policy_id),
    {
        if self.admin.is_none() {
            return Err(Error::NotInitialized);
        }
        let mut policy = match self.policies.get(&policy_id) {
            Some(p) => *p,
            None => return Err(Error::PolicyNotFound),
        };
        policy.is_active = false;
        self.policies.insert(policy_id, policy);
        Ok(())
    }

    /// `claimant` files a claim of `amount` against its policy `policy_id`;
    /// answers the claim's id.
    pub fn submit_claim(
        &mut self,
        env: &Env,
        claimant: Address,
        policy_id: u64,
        amount: i128,
        description: Vec<u8>,
    ) -> (res: Result<u64, Error>)
        requires
            old(self)@.claim_refusal(claimant, policy_id, amount) is None ==> old(
                self,
            ).claim_counter < u64::MAX,
        ensures
            (final(self)@, res) == old(self)@.submit_claim(
                env.timestamp,
                env.current_contract_address,
                claimant,
                policy_id,
                amount,
                description@,
            ),
    {
        if let Some(e) = self.claim_refusal(claimant, policy_id, amount) {
            return Err(e);
        }
        let claim_id = self.next_claim_id();
        let claim = Claim {
            claim_id,
            claimant,
            policy_id,
            amount,
            description,
            status: ClaimStatus::Pending,
            submitted_at: env.timestamp,
            reviewed_at: 0,
            reviewer: env.current_contract_address,
        };
        proof {
            lemma_claims_view_insert(self.claims@, claim_id, claim);
        }
        self.claims.insert(claim_id, claim);
        self.claimant_claims.push(claimant, claim_id);
        Ok(claim_id)
    }

    /// A copy of the claim stored under `claim_id`.
    fn get_claim_internal(&self, claim_id: u64) -> (res: Result<Claim, Error>)
        ensures
            claim_result_view(res) == self@.claim(claim_id),
    {
        match self.claims.get(&claim_id) {
            Some(c) => Ok(copy_claim(c)),
            None => Err(Error::ClaimNotFound),
        }
    }

    /// The insurer takes pending claim `claim_id` under review.
    pub fn start_review(&mut self, env: &Env, claim_id: u64) -> (res: Result<(), Error>)
        ensures
            (final(self)@, res) == old(self)@.start_review(env.timestamp, claim_id),
    {
        let admin = match self.admin {
            Some(a) => a,
            None => return Err(Error::NotInitialized),
        };
        let mut claim = match self.get_claim_internal(claim_id) {
            Ok(c) => c,
            Err(e) => return Err(e),
        };
        if claim.status != ClaimStatus::Pending {
            return Err(Error::NotPending);
        }
        claim.status = ClaimStatus::UnderReview;
        claim.reviewed_at = env.timestamp;
        claim.reviewer = admin;
        proof {
            lemma_claims_view_insert(self.claims@, claim_id, claim);
        }
        self.claims.insert(claim_id, claim);
        Ok(())
    }

    /// The insurer approves claim `claim_id`, which is under review.
    pub fn approve_claim(&mut self, claim_id: u64) -> (res: Result<(), Error>)
        ensures
            (final(self)@, res) == old(self)@.approve_claim(claim_id),
    {
        let admin = match self.admin {
            Some(a) => a,
            None => return Err(Error::NotInitialized),
        };
        let mut claim = match self.get_claim_internal(claim_id) {
            Ok(c) => c,
            Err(e) => return Err(e),
        };
        if claim.status != ClaimStatus::UnderReview {
            return Err(Error::NotUnderReview);
        }
        claim.status = ClaimStatus::Approved;
        claim.reviewer = admin;
        proof {
            lemma_claims_view_insert(self.claims@, claim_id, claim);
        }
        self.claims.insert(claim_id, claim);
        Ok(())
    }

    /// The insurer rejects claim `claim_id`, which has not been paid.
    pub fn reject_claim(&mut self, claim_id: u64) -> (res: Result<(), Error>)
        ensures
            (final(self)@, res) == old(self)@.reject_claim(claim_id),
    {
        let admin = match self.admin {
            Some(a) => a,
            None => return Err(Error::NotInitialized),
        };
        let mut claim = match self.get_claim_internal(claim_id) {
            Ok(c) => c,
            Err(e) => return Err(e),
        };
        if claim.status == ClaimStatus::Paid {
            return Err(Error::AlreadyPaid);
        }
        claim.status = ClaimStatus::Rejected;
        claim.reviewer = admin;
        proof {
            lemma_claims_view_insert(self.claims@, claim_id, claim);
        }
        self.claims.insert(claim_id, claim);
        Ok(())
    }

    /// The insurer records that approved claim `claim_id` has been paid.
    pub fn mark_paid(&mut self, claim_id: u64) -> (res: Result<(), Error>)
        ensures
            (final(self)@, res) == old(self)@.mark_paid(claim_id),
    {
        if self.admin.is_none() {
            return Err(Error::NotInitialized);
        }
        let mut claim = match self.get_claim_internal(claim_id) {
            Ok(c) => c,
            Err(e) => return Err(e),
        };
        if claim.status != ClaimStatus::Approved {
            return Err(Error::NotApproved);
        }
        claim.status = ClaimStatus::Paid;
        proof {
            lemma_claims_view_insert(self.claims@, claim_id, claim);
        }
        self.claims.insert(claim_id, claim);
        Ok(())
    }

    /// The claim stored under `claim_id`.
    pub fn get_claim(&self, claim_id: u64) -> (res: Result<Claim, Error>)
        ensures
            claim_result_view(res) == self@.claim(claim_id),
    {
        self.get_claim_internal(claim_id)
    }

    /// The policy stored under `policy_id`.
    pub fn get_policy(&self, policy_id: u64) -> (res: Result<Policy, Error>)
        ensures
            res == self@.policy(policy_id),
    {
        match self.policies.get(&policy_id) {
            Some(p) => Ok(*p),
            None => Err(Error::PolicyNotFound),
        }
    }

    /// The ids of the claims filed by `claimant`, in submission order.
    pub fn get_claimant_claims(&self, claimant: Address) -> (res: Vec<u64>)
        ensures
            res@ == self@.claimant_claims[claimant],
    {
        self.claimant_claims.get(&claimant)
    }

    /// The ids of the policies of `holder`, in registration order.
    pub fn get_holder_policies(&self, holder: Address) -> (res: Vec<u64>)
        ensures
            res@ == self@.holder_policies[holder],
    {
        self.holder_policies.get(&holder)
    }

    /// The insurer.
    pub fn get_admin(&self) -> (res: Result<Address, Error>)
        ensures
            res == self@.admin_address(),
    {
        match self.admin {
            Some(a) => Ok(a),
            None => Err(Error::NotInitialized),
        }
    }

    /// The number of claims filed (the id of the last one).
    pub fn get_claim_count(&self) -> (res: u64)
        ensures
            res == self@.claim_counter,
    {
        self.claim_counter
    }

    /// The number of policies registered (the id of the last one).
    pub fn get_policy_count(&self) -> (res: u64)
        ensures
            res == self@.policy_counter,
    {
        self.policy_counter
    }
}

} // verus!
