use vstd::prelude::*;
use crate::address::Address;

verus! {

/// Where a claim stands.
#[derive(Clone, Copy, Debug, PartialEq, Eq, Structural)]
pub enum ClaimStatus {
    Pending,
    UnderReview,
    Approved,
    Rejected,
    Paid,
}

/// A claim filed by a policy holder. Amounts are in stroops.
#[derive(Clone, Debug)]
pub struct Claim {
    pub claim_id: u64,
    pub policy_holder: Address,
    pub amount: i128,
    /// The holder's description, as the bytes it was given in.
    pub description: Vec<u8>,
    pub status: ClaimStatus,
    /// Ledger timestamp of the submission.
    pub created_at: u64,
    /// Ledger timestamp of the last change.
    pub updated_at: u64,
}

/// A claim as a mathematical value: its description as a sequence of bytes.
pub struct ClaimView {
    pub claim_id: u64,
    pub policy_holder: Address,
    pub amount: i128,
    pub description: Seq<u8>,
    pub status: ClaimStatus,
    pub created_at: u64,
    pub updated_at: u64,
}

impl View for Claim {
    type V = ClaimView;

    open spec fn view(&self) -> ClaimView {
        ClaimView {
            claim_id: self.claim_id,
            policy_holder: self.policy_holder,
            amount: self.amount,
            description: self.description@,
            status: self.status,
            created_at: self.created_at,
            updated_at: self.updated_at,
        }
    }
}

/// The stored claims, each by its view.
pub open spec fn claims_view(claims: Map<u64, Claim>) -> Map<u64, ClaimView> {
    claims.map_values(|c: Claim| c@)
}

/// Storing a claim stores its view.
pub proof fn lemma_claims_view_insert(claims: Map<u64, Claim>, id: u64, claim: Claim)
    ensures
        claims_view(claims.insert(id, claim)) == claims_view(claims).insert(id, claim@),
{
    assert(claims_view(claims.insert(id, claim)) =~= claims_view(claims).insert(id, claim@));
}

/// A looked-up claim, by its view.
pub open spec fn claim_result_view(res: Result<Claim, Error>) -> Result<ClaimView, Error> {
    match res {
        Ok(c) => Ok(c@),
        Err(e) => Err(e),
    }
}

/// One invocation of an operation that changes the contract, with its arguments.
pub enum Action {
    Initialize { admin: Address },
    CreatePolicy { holder: Address, coverage_amount: i128, premium: i128 },
    DeactivatePolicy { caller: Address, policy_id: u64 },
    SubmitClaim { policy_holder: Address, policy_id: u64, amount: i128, description: Vec<u8> },
    UpdateClaimStatus { admin: Address, claim_id: u64, status: ClaimStatus },
}

/// An insurance policy of a holder. Amounts are in stroops.
#[derive(Clone, Copy, Debug, PartialEq, Eq, Structural)]
pub struct Policy {
    pub policy_id: u64,
    pub holder: Address,
    pub coverage_amount: i128,
    pub premium: i128,
    pub active: bool,
    pub created_at: u64,
}

/// Why an operation was refused.
#[derive(Clone, Copy, Debug, PartialEq, Eq, Structural)]
pub enum Error {
    AlreadyInitialised,
    /// No admin has been set.
    NotInitialised,
    PolicyNotFound,
    Unauthorised,
    PolicyNotActive,
    NotYourPolicy,
    ClaimExceedsCoverage,
    OnlyAdmin,
    ClaimNotFound,
}

/// The text that describes each refusal.
pub open spec fn error_message(e: Error) -> Seq<char> {
    match e {
        Error::AlreadyInitialised => "already initialised"@,
        Error::NotInitialised => "called `Option::unwrap()` on a `None` value"@,
        Error::PolicyNotFound => "policy not found"@,
        Error::Unauthorised => "unauthorised"@,
        Error::PolicyNotActive => "policy is not active"@,
        Error::NotYourPolicy => "not your policy"@,
        Error::ClaimExceedsCoverage => "claim exceeds coverage amount"@,
        Error::OnlyAdmin => "only admin can update claim status"@,
        Error::ClaimNotFound => "claim not found"@,
    }
}

impl Error {
    /// The text that describes this refusal.
    pub fn message(&self) -> (res: &'static str)
        ensures
            res@ == error_message(*self),
    {
        match self {
            Error::AlreadyInitialised => "already initialised",
            Error::NotInitialised => "called `Option::unwrap()` on a `None` value",
            Error::PolicyNotFound => "policy not found",
            Error::Unauthorised => "unauthorised",
            Error::PolicyNotActive => "policy is not active",
            Error::NotYourPolicy => "not your policy",
            Error::ClaimExceedsCoverage => "claim exceeds coverage amount",
            Error::OnlyAdmin => "only admin can update claim status",
            Error::ClaimNotFound => "claim not found",
        }
    }
}

} // verus!
