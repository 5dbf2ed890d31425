use vstd::prelude::*;
use crate::address::Address;

verus! {

/// Where a claim stands in its review.
#[derive(Clone, Copy, Debug, PartialEq, Eq, Structural)]
pub enum ClaimStatus {
    Pending,
    UnderReview,
    Approved,
    Rejected,
    Paid,
}

/// A claim filed against a policy. Amounts are in stroops.
#[derive(Clone, Debug)]
pub struct Claim {
    pub claim_id: u64,
    pub claimant: Address,
    pub policy_id: u64,
    pub amount: i128,
    /// The claimant's description, as the bytes it was given in.
    pub description: Vec<u8>,
    pub status: ClaimStatus,
    /// Ledger timestamp of the submission.
    pub submitted_at: u64,
    /// Ledger timestamp of the start of the review, 0 before it.
    pub reviewed_at: u64,
    /// The insurer once the claim has been handled, the contract itself before.
    pub reviewer: Address,
}

/// A claim as a mathematical value: its description as a sequence of bytes.
pub struct ClaimView {
    pub claim_id: u64,
    pub claimant: Address,
    pub policy_id: u64,
    pub amount: i128,
    pub description: Seq<u8>,
    pub status: ClaimStatus,
    pub submitted_at: u64,
    pub reviewed_at: u64,
    pub reviewer: Address,
}

impl View for Claim {
    type V = ClaimView;

    open spec fn view(&self) -> ClaimView {
        ClaimView {
            claim_id: self.claim_id,
            claimant: self.claimant,
            policy_id: self.policy_id,
            amount: self.amount,
            description: self.description@,
            status: self.status,
            submitted_at: self.submitted_at,
            reviewed_at: self.reviewed_at,
            reviewer: self.reviewer,
        }
    }
}

/// The stored claims, each by its view.
pub open spec fn claims_view(claims: Map<u64, Claim>) -> Map<u64, ClaimView> {
    claims.map_values(|c: Claim| c@)
}

/// Storing a claim stores its view.
pub proof fn lemma_claims_view_insert(claims: Map<u64, Claim>, id: u64, claim: Claim)
    ensures
        claims_view(claims.insert(id, claim)) == claims_view(claims).insert(id, claim@),
{
    assert(claims_view(claims.insert(id, claim)) =~= claims_view(claims).insert(id, claim@));
}

/// A looked-up claim, by its view.
pub open spec fn claim_result_view(res: Result<Claim, Error>) -> Result<ClaimView, Error> {
    match res {
        Ok(c) => Ok(c@),
        Err(e) => Err(e),
    }
}

/// One invocation of an operation that changes the contract, with its arguments.
pub enum Action {
    Initialize { admin: Address },
    RegisterPolicy { holder: Address, coverage_amount: i128, premium_paid: i128 },
    DeactivatePolicy { policy_id: u64 },
    SubmitClaim { claimant: Address, policy_id: u64, amount: i128, description: Vec<u8> },
    StartReview { claim_id: u64 },
    ApproveClaim { claim_id: u64 },
    RejectClaim { claim_id: u64 },
    MarkPaid { claim_id: u64 },
}

/// An insurance policy of a holder. Amounts are in stroops.
#[derive(Clone, Copy, Debug, PartialEq, Eq, Structural)]
pub struct Policy {
    pub policy_id: u64,
    pub holder: Address,
    pub coverage_amount: i128,
    pub premium_paid: i128,
    pub is_active: bool,
    pub created_at: u64,
}

/// Why an operation was refused.
#[derive(Clone, Copy, Debug, PartialEq, Eq, Structural)]
pub enum Error {
    AlreadyInitialized,
    NotInitialized,
    PolicyNotFound,
    PolicyNotActive,
    NotPolicyHolder,
    ExceedsCoverage,
    NonPositiveAmount,
    ClaimNotFound,
    NotPending,
    NotUnderReview,
    AlreadyPaid,
    NotApproved,
}

/// The text that describes each refusal.
pub open spec fn error_message(e: Error) -> Seq<char> {
    match e {
        Error::AlreadyInitialized => "Already initialized"@,
        Error::NotInitialized => "Contract not initialized"@,
        Error::PolicyNotFound => "Policy not found"@,
        Error::PolicyNotActive => "Policy is not active"@,
        Error::NotPolicyHolder => "Claimant does not own this policy"@,
        Error::ExceedsCoverage => "Claim amount exceeds coverage limit"@,
        Error::NonPositiveAmount => "Claim amount must be positive"@,
        Error::ClaimNotFound => "Claim not found"@,
        Error::NotPending => "Claim is not in Pending status"@,
        Error::NotUnderReview => "Claim must be UnderReview before approval"@,
        Error::AlreadyPaid => "Cannot reject an already paid claim"@,
        Error::NotApproved => "Claim must be Approved before marking as paid"@,
    }
}

impl Error {
    /// The text that describes this refusal.
    pub fn message(&self) -> (res: &'static str)
        ensures
            res@ == error_message(*self),
    {
        match self {
            Error::AlreadyInitialized => "Already initialized",
            Error::NotInitialized => "Contract not initialized",
            Error::PolicyNotFound => "Policy not found",
            Error::PolicyNotActive => "Policy is not active",
            Error::NotPolicyHolder => "Claimant does not own this policy",
            Error::ExceedsCoverage => "Claim amount exceeds coverage limit",
            Error::NonPositiveAmount => "Claim amount must be positive",
            Error::ClaimNotFound => "Claim not found",
            Error::NotPending => "Claim is not in Pending status",
            Error::NotUnderReview => "Claim must be UnderReview before approval",
            Error::AlreadyPaid => "Cannot reject an already paid claim",
            Error::NotApproved => "Claim must be Approved before marking as paid",
        }
    }
}

} // verus!
