//! A layered light-client core: Merkle proof verification, canonical vote
//! encoding, consensus-state bootstrap arithmetic, a layered client-update
//! engine, and the client lifecycle state machine, with machine-checked
//! contracts.

pub mod bootstrap;
pub mod bytes;
pub mod client;
pub mod client_module;
pub mod codec;
pub mod errors;
pub mod hash;
pub mod header;
pub mod height;
pub mod merkle;
pub mod oracle;
pub mod rpc;
pub mod vote;
