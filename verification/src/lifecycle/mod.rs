//! Insurance claims administered by an insurer: the insurer registers
//! policies, holders file claims against them, and each claim goes through
//! review (`Pending -> UnderReview -> Approved -> Paid`, or `Rejected` at any
//! point before payment).

pub mod types;
pub mod model;

pub use types::{Action, Claim, ClaimStatus, ClaimView, Error, Policy};
pub use model::ContractState;
pub mod contract;
pub mod laws;
pub mod outcomes;

pub use contract::InsuranceClaimsContract;
