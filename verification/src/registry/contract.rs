use std::collections::HashMap;
use vstd::prelude::*;
use crate::address::Address;
use crate::env::Env;
use crate::bytes::copy_bytes;
use crate::holder_index::HolderIndex;
use super::model::{required_signer, ContractState};
use super::types::{
    claim_result_view,
    claims_view,
    lemma_claims_view_insert,
    Action,
    Claim,
    ClaimStatus,
    Error,
    Policy,
};

verus! {

broadcast use vstd::std_specs::hash::group_hash_axioms;

/// The contract and its storage. Each operation is invoked with the ledger's
/// `Env`, after the ledger has checked the authorizations it asks for: the
/// holder's for creating a policy and filing a claim, the caller's for
/// deactivating, the admin's for updating a claim.
pub struct InsuranceClaimsContract {
    pub admin: Option<Address>,
    pub claim_counter: u64,
    pub policy_counter: u64,
    pub policies: HashMap<u64, Policy>,
    pub claims: HashMap<u64, Claim>,
    pub holder_policies: HolderIndex,
    pub holder_claims: HolderIndex,
}

impl View for InsuranceClaimsContract {
    type V = ContractState;

    open spec fn view(&self) -> ContractState {
        ContractState {
            admin: self.admin,
            claim_counter: self.claim_counter,
            policy_counter: self.policy_counter,
            policies: self.policies@,
            claims: claims_view(self.claims@),
            holder_policies: self.holder_policies@,
            holder_claims: self.holder_claims@,
        }
    }
}

/// A copy of `c`.
fn copy_claim(c: &Claim) -> (res: Claim)
    ensures
        res@ == c@,
{
    Claim {
        claim_id: c.claim_id,
        policy_holder: c.policy_holder,
        amount: c.amount,
        description: copy_bytes(&c.description),
        status: c.status,
        created_at: c.created_at,
        updated_at: c.updated_at,
    }
}

impl InsuranceClaimsContract {
    /// A freshly deployed contract: no admin, no policy, no claim.
    pub fn new() -> (res: InsuranceClaimsContract)
        ensures
            res@ == ContractState::empty(),
    {
        let res = InsuranceClaimsContract {
            admin: None,
            claim_counter: 0,
            policy_counter: 0,
            policies: HashMap::new(),
            claims: HashMap::new(),
            holder_policies: HolderIndex::new(),
            holder_claims: HolderIndex::new(),
        };
        assert(claims_view(res.claims@) =~= Map::empty());
        res
    }

    /// Sets the admin; refused once there is one.
    pub fn initialize(&mut self, admin: Address) -> (res: Result<(), Error>)
        ensures
            (final(self)@, res) == old(self)@.initialize(admin),
    {
        if self.admin.is_some() {
            return Err(Error::AlreadyInitialised);
        }
        self.admin = Some(admin);
        Ok(())
    }

    /// The address whose signature `action` needs, if any.
    pub fn required_signer(action: &Action) -> (res: Option<Address>)
        ensures
            res == required_signer(*action),
    {
        match action {
            Action::Initialize { .. } => None,
            Action::CreatePolicy { holder, .. } => Some(*holder),
            Action::DeactivatePolicy { caller, .. } => Some(*caller),
            Action::SubmitClaim { policy_holder, .. } => Some(*policy_holder),
            Action::UpdateClaimStatus { admin, .. } => Some(*admin),
        }
    }

    /// Why a claim of `amount` by `policy_holder` against `policy_id` would be
    /// refused, if it would.
    pub fn claim_refusal(&self, policy_holder: Address, policy_id: u64, amount: i128) -> (res: Option<
        Error,
    >)
        ensures
            res == self@.claim_refusal(policy_holder, policy_id, amount),
    {
        let policy = match self.policies.get(&policy_id) {
            Some(p) => *p,
            None => return Some(Error::PolicyNotFound),
        };
        if !policy.active {
            return Some(Error::PolicyNotActive);
        }
        if policy.holder != policy_holder {
            return Some(Error::NotYourPolicy);
        }
        if amount > policy.coverage_amount {
            return Some(Error::ClaimExceedsCoverage);
        }
        None
    }

    /// `holder` creates an active policy; answers its id.
    pub fn create_policy(
        &mut self,
        env: &Env,
        holder: Address,
        coverage_amount: i128,
        premium: i128,
    ) -> (res: u64)
        requires
            old(self).policy_counter < u64::MAX,
        ensures
            (final(self)@, res) == old(self)@.create_policy(
                env.timestamp,
                holder,
                coverage_amount,
                premium,
            ),
    {
        let policy_id = self.policy_counter + 1;
        let policy = Policy {
            policy_id,
            holder,
            coverage_amount,
            premium,
            active: true,
            created_at: env.timestamp,
        };
        self.policies.insert(policy_id, policy);
        self.policy_counter = policy_id;
        self.holder_policies.push(holder, policy_id);
        policy_id
    }

    /// `caller`, the admin or the holder, marks policy `policy_id` inactive.
    pub fn deactivate_policy(&mut self, caller: Address, policy_id: u64) -> (res: Result<(), Error>)
        ensures
            (final(self)@, res) == old(self)@.deactivate_policy(caller, policy_id),
    {
        let admin = match self.admin {
            Some(a) => a,
            None => return Err(Error::NotInitialised),
        };
        let mut policy = match self.policies.get(&policy_id) {
            Some(p) => *p,
            None => return Err(Error::PolicyNotFound),
        };
        if caller != admin && caller != policy.holder {
            return Err(Error::Unauthorised);
        }
        policy.active = false;
        self.policies.insert(policy_id, policy);
        Ok(())
    }

    /// `policy_holder` files a claim of `amount` against its policy
    /// `policy_id`; answers the claim's id.
    pub fn submit_claim(
        &mut self,
        env: &Env,
        policy_holder: Address,
        policy_id: u64,
        amount: i128,
        description: Vec<u8>,
    ) -> (res: Result<u64, Error>)
        requires
            old(self)@.claim_refusal(policy_holder, policy_id, amount) is None ==> old(
                self,
            ).claim_counter < u64::MAX,
        ensures
            (final(self)@, res) == old(self)@.submit_claim(
                env.timestamp,
                policy_holder,
                policy_id,
                amount,
                description@,
            ),
    {
        if let Some(e) = self.claim_refusal(policy_holder, policy_id, amount) {
            return Err(e);
        }
        let claim_id = self.claim_counter + 1;
        let now = env.timestamp;
        let claim = Claim {
            claim_id,
            policy_holder,
            amount,
            description,
            status: ClaimStatus::Pending,
            created_at: now,
            updated_at: now,
        };
        proof {
            lemma_claims_view_insert(self.claims@, claim_id, claim);
        }
        self.claims.insert(claim_id, claim);
        self.claim_counter = claim_id;
        self.holder_claims.push(policy_holder, claim_id);
        Ok(claim_id)
    }

    /// The admin sets the status of claim `claim_id` to `status`.
    pub fn update_claim_status(
        &mut self,
        env: &Env,
        admin: Address,
        claim_id: u64,
        status: ClaimStatus,
    ) -> (res: Result<(), Error>)
        ensures
            (final(self)@, res) == old(self)@.update_claim_status(
                env.timestamp,
                admin,
                claim_id,
                status,
            ),
    {
        let stored_admin = match self.admin {
            Some(a) => a,
            None => return Err(Error::NotInitialised),
        };
        if admin != stored_admin {
            return Err(Error::OnlyAdmin);
        }
        let mut claim = match self.claims.get(&claim_id) {
            Some(c) => copy_claim(c),
            None => return Err(Error::ClaimNotFound),
        };
        claim.status = status;
        claim.updated_at = env.timestamp;
        proof {
            lemma_claims_view_insert(self.claims@, claim_id, claim);
        }
        self.claims.insert(claim_id, claim);
        Ok(())
    }

    /// The claim stored under `claim_id`.
    pub fn get_claim(&self, claim_id: u64) -> (res: Result<Claim, Error>)
        ensures
            claim_result_view(res) == self@.claim(claim_id),
    {
        match self.claims.get(&claim_id) {
            Some(c) => Ok(copy_claim(c)),
            None => Err(Error::ClaimNotFound),
        }
    }

    /// The policy stored under `policy_id`.
    pub fn get_policy(&self, policy_id: u64) -> (res: Result<Policy, Error>)
        ensures
            res == self@.policy(policy_id),
    {
        match self.policies.get(&policy_id) {
            Some(p) => Ok(*p),
            None => Err(Error::PolicyNotFound),
        }
    }

    /// The ids handed out for the claims of `holder`, in submission order.
    pub fn get_holder_claims(&self, holder: Address) -> (res: Vec<u64>)
        ensures
            res@ == self@.holder_claims[holder],
    {
        self.holder_claims.get(&holder)
    }

    /// The ids handed out for the policies of `holder`, in creation order.
    pub fn get_holder_policies(&self, holder: Address) -> (res: Vec<u64>)
        ensures
            res@ == self@.holder_policies[holder],
    {
        self.holder_policies.get(&holder)
    }

    /// The claim counter: the id of the last claim filed.
    pub fn total_claims(&self) -> (res: u64)
        ensures
            res == self@.claim_counter,
    {
        self.claim_counter
    }

    /// The policy counter: the id of the last policy created.
    pub fn total_policies(&self) -> (res: u64)
        ensures
            res == self@.policy_counter,
    {
        self.policy_counter
    }

    /// The admin.
    pub fn get_admin(&self) -> (res: Result<Address, Error>)
        ensures
            res == self@.admin_address(),
    {
        match self.admin {
            Some(a) => Ok(a),
            None => Err(Error::NotInitialised),
        }
    }
}

} // verus!
