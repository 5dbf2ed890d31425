use vstd::prelude::*;
use crate::address::Address;

verus! {

/// What an invocation learns from the ledger it runs in.
#[derive(Clone, Copy, Debug)]
pub struct Env {
    /// The ledger's timestamp, in seconds.
    pub timestamp: u64,
    /// The address of the running contract.
    pub current_contract_address: Address,
}

} // verus!
