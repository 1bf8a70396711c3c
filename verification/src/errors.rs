//! The error taxonomy: one tagged union per layer, the outer layer carrying
//! the inner layer's error unchanged so callers can tell where a failure
//! originated.

use vstd::prelude::*;
use crate::height::Height;

verus! {

/// Failures of the settlement-layer (account/storage trie) proof primitives.
#[derive(Debug, Clone, PartialEq, Eq)]
pub enum EvmError {
    /// The proof holds no nodes at all.
    EmptyProof,
    /// The proof is longer than the configured maximum depth.
    ProofTooDeep { depth: usize, max: usize },
    /// A proof node's bytes cannot be parsed as a direction and a digest.
    ProofNodeDecode(Vec<u8>),
    /// The proof names a different storage key than the one queried.
    KeyMismatch { expected: Vec<u8>, found: Vec<u8> },
    /// Walking the proof did not end at the committed root.
    RootMismatch { expected: Vec<u8>, computed: Vec<u8> },
    /// The value recovered from the proof differs from the claimed value.
    StoredValueMismatch { expected: Vec<u8>, stored: Vec<u8> },
}

/// A failure reported by the host when a capability call could not complete.
#[derive(Debug, Clone, PartialEq, Eq)]
pub struct HostError {
    pub code: u64,
}

/// Errors of the layered (rollup) client. The `Evm` variant wraps the
/// settlement layer's own error unchanged.
#[derive(Debug, PartialEq, Eq)]
pub enum Error {
    /// No consensus state is recorded at the requested height.
    ConsensusStateNotFound(Height),
    /// The IBC path is empty.
    EmptyIbcPath,
    /// The proof is structurally empty.
    EmptyProof,
    /// The stored value recovered from a proof differs from the claimed one.
    StoredValueMismatch { expected: Vec<u8>, stored: Vec<u8> },
    /// The rollup header's recomputed commitment digest differs from the
    /// digest the settlement chain finalized.
    CommitmentDigestMismatch { expected: Vec<u8>, computed: Vec<u8> },
    /// The header nests more layers than the configured maximum.
    HeaderTooDeep { depth: usize, max: usize },
    /// The submitted batch-commitment bytes cannot be parsed.
    BatchHeaderDecode,
    /// The operation is intentionally not supported by this client variant.
    Unimplemented,
    /// The host capability itself failed (distinct from a rejected signature).
    CustomQuery(HostError),
    /// The client is frozen at the given height; no updates are accepted.
    Frozen(Height),
    /// Cryptographically valid evidence conflicts with a consensus state the
    /// client already trusts at this height; the client freezes.
    Misbehaviour(Height),
    /// The substitute client offered for migration is itself frozen.
    SubstituteClientFrozen,
    /// A field outside the migration allow-list differs between the old and
    /// the substitute client state.
    MigrateFieldsChanged,
    /// A commitment key must be exactly 32 bytes.
    InvalidCommitmentKeyLength(Vec<u8>),
    /// A commitment value must be exactly 32 bytes.
    InvalidCommitmentValueLength(Vec<u8>),
    /// A settlement-layer proof failed; the inner error is kept unchanged.
    Evm(EvmError),
    /// The delegated (inner-layer) client failed; its error is kept
    /// unchanged so callers can tell which layer failed.
    Delegate(Box<Error>),
}

} // verus!
