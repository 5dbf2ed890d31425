use vstd::prelude::*;

verus! {

/// Which kind of account an address designates.
#[derive(Clone, Copy, Debug, PartialEq, Eq, Structural, Hash)]
pub enum AddressKind {
    /// An account controlled by an ed25519 key.
    Account,
    /// A deployed contract.
    Contract,
}

/// A ledger address: its kind and the 32 bytes that identify it, held as four
/// big-endian 64-bit words (`w0` first).
#[derive(Clone, Copy, Debug, PartialEq, Eq, Structural, Hash)]
pub struct Address {
    pub kind: AddressKind,
    pub w0: u64,
    pub w1: u64,
    pub w2: u64,
    pub w3: u64,
}

} // verus!
