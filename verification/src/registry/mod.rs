//! Insurance claims kept by holders and an admin: holders create their own
//! policies and file claims against them, the admin (or the holder)
//! deactivates policies, and the admin sets the status of claims.

pub mod types;
pub mod model;
pub mod contract;
pub mod laws;
pub mod outcomes;

pub use types::{Action, Claim, ClaimStatus, ClaimView, Error, Policy};
pub use model::ContractState;
pub use contract::InsuranceClaimsContract;
