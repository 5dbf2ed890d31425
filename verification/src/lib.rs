//! Insurance claims: policies registered for holders, claims filed against
//! them and reviewed by an insurer, modelled as verified state machines.

pub mod address;
pub mod holder_index;
pub mod env;
pub mod bytes;
pub mod lifecycle;
pub mod registry;
