//! Proof primitives: inclusion of a value in a committed root.
//!
//! A proof is a chain of nodes from a key/value leaf up to a root. Each node
//! is one direction byte (0: the running digest is the left child, 1: the
//! right child) followed by the sibling's 32-byte digest; the running digest
//! starts at the hash of `key ++ value` and each step hashes the ordered pair.
//! Verification recomputes the root and is a pure function of
//! `(root, proof, value)`. Proofs longer than [`MAX_PROOF_DEPTH`] are rejected
//! before any walking begins, so work is bounded by the proof size alone.

use vstd::prelude::*;
use crate::bytes::{bytes_eq, concat_bytes, is_zero32, subrange_vec, zero_bytes};
use crate::errors::{Error, EvmError};
use crate::hash::{keccak_of, keccak256};

verus! {

/// The maximum number of nodes a proof may hold.
pub const MAX_PROOF_DEPTH: usize = 64;

/// Proves an account's storage root against a world-state root: the claimed
/// storage root plus the node chain from the account leaf up to that root.
#[derive(Debug, Clone, PartialEq, Eq)]
pub struct AccountProof {
    pub storage_root: Vec<u8>,
    pub proof: Vec<Vec<u8>>,
}

/// Proves a value at a storage key against an account's storage root.
#[derive(Debug, Clone, PartialEq, Eq)]
pub struct StorageProof {
    pub key: Vec<u8>,
    pub value: Vec<u8>,
    pub proof: Vec<Vec<u8>>,
}

/// The views of a sequence of byte vectors.
pub open spec fn node_views(v: Seq<Vec<u8>>) -> Seq<Seq<u8>> {
    v.map_values(|x: Vec<u8>| x@)
}

/// A parsable proof node: one direction byte followed by a 32-byte digest.
pub open spec fn node_wf(n: Seq<u8>) -> bool {
    n.len() == 33 && (n[0] == 0 || n[0] == 1)
}

pub open spec fn nodes_wf(nodes: Seq<Seq<u8>>) -> bool {
    forall|i: int| 0 <= i < nodes.len() ==> node_wf(#[trigger] nodes[i])
}

/// The leaf commitment of a key/value pair.
pub open spec fn leaf_of(key: Seq<u8>, value: Seq<u8>) -> Seq<u8> {
    keccak_of(key + value)
}

/// One step up the chain: hash the running digest beside the sibling, in the
/// order the direction byte gives.
pub open spec fn step_up(h: Seq<u8>, n: Seq<u8>) -> Seq<u8> {
    if n[0] == 0 {
        keccak_of(h + n.subrange(1, 33))
    } else {
        keccak_of(n.subrange(1, 33) + h)
    }
}

/// The digest at the top of the chain, starting from `leaf`.
pub open spec fn fold_proof(leaf: Seq<u8>, nodes: Seq<Seq<u8>>) -> Seq<u8>
    decreases nodes.len(),
{
    if nodes.len() == 0 {
        leaf
    } else {
        fold_proof(step_up(leaf, nodes[0]), nodes.subrange(1, nodes.len() as int))
    }
}

/// A proof chains `(key, value)` to `root`: depth within bounds, every node
/// parsable, and the recomputed digest equal to the root.
pub open spec fn proof_chains(root: Seq<u8>, key: Seq<u8>, value: Seq<u8>, nodes: Seq<Seq<u8>>) -> bool {
    &&& 1 <= nodes.len() <= MAX_PROOF_DEPTH
    &&& nodes_wf(nodes)
    &&& fold_proof(leaf_of(key, value), nodes) == root
}

/// A storage proof is accepted against `storage_root` for `key` exactly when
/// it names that key and chains the key and its own value to the root.
pub open spec fn storage_proof_ok(storage_root: Seq<u8>, key: Seq<u8>, proof_key: Seq<u8>, proof_value: Seq<u8>, nodes: Seq<Seq<u8>>) -> bool {
    proof_key == key && proof_chains(storage_root, key, proof_value, nodes)
}

/// An account proof is accepted against `root` for `address` exactly when it
/// chains the address and its claimed storage root to the world-state root.
pub open spec fn account_proof_ok(root: Seq<u8>, address: Seq<u8>, storage_root: Seq<u8>, nodes: Seq<Seq<u8>>) -> bool {
    proof_chains(root, address, storage_root, nodes)
}

/// Walks the node chain from `leaf` and returns the recomputed root digest.
/// Structural checks (emptiness, depth, parsability) run before any hashing.
fn fold_nodes(leaf: Vec<u8>, nodes: &Vec<Vec<u8>>) -> (r: Result<Vec<u8>, EvmError>)
    ensures
        (r is Ok) <==> (1 <= nodes@.len() <= MAX_PROOF_DEPTH && nodes_wf(node_views(nodes@))),
        r matches Ok(h) ==> h@ == fold_proof(leaf@, node_views(nodes@)),
        nodes@.len() == 0 ==> r == Err::<Vec<u8>, EvmError>(EvmError::EmptyProof),
        nodes@.len() > MAX_PROOF_DEPTH ==> (r matches Err(e) && e matches EvmError::ProofTooDeep { depth, max } && depth == nodes@.len() && max == MAX_PROOF_DEPTH),
        (1 <= nodes@.len() <= MAX_PROOF_DEPTH && !nodes_wf(node_views(nodes@))) ==> (r matches Err(e) && e matches EvmError::ProofNodeDecode(n) && exists|i: int| 0 <= i < nodes@.len() && n@ == #[trigger] node_views(nodes@)[i] && !node_wf(node_views(nodes@)[i])),
{
    if nodes.len() == 0 {
        return Err(EvmError::EmptyProof);
    }
    if nodes.len() > MAX_PROOF_DEPTH {
        return Err(EvmError::ProofTooDeep { depth: nodes.len(), max: MAX_PROOF_DEPTH });
    }
    let ghost leaf0 = leaf@;
    let mut h = leaf;
    let mut i: usize = 0;
    proof {
        assert(node_views(nodes@).skip(0) =~= node_views(nodes@));
    }
    while i < nodes.len()
        invariant
            i <= nodes@.len(),
            1 <= nodes@.len() <= MAX_PROOF_DEPTH,
            forall|j: int| 0 <= j < i ==> node_wf(#[trigger] node_views(nodes@)[j]),
            fold_proof(h@, node_views(nodes@).skip(i as int)) == fold_proof(leaf0, node_views(nodes@)),
        decreases nodes@.len() - i,
    {
        let node = &nodes[i];
        if node.len() != 33 || (node[0] != 0 && node[0] != 1) {
            return Err(EvmError::ProofNodeDecode(node.clone()));
        }
        let sibling = subrange_vec(node, 1, 33);
        let ghost pre = h@;
        let next = if node[0] == 0 {
            keccak256(&concat_bytes(&h, &sibling))
        } else {
            keccak256(&concat_bytes(&sibling, &h))
        };
        h = next;
        proof {
            let s = node_views(nodes@).skip(i as int);
            assert(s[0] == node_views(nodes@)[i as int]);
            assert(s.subrange(1, s.len() as int) =~= node_views(nodes@).skip(i as int + 1));
            assert(h@ == step_up(pre, s[0]));
        }
        i = i + 1;
    }
    proof {
        assert(node_views(nodes@).skip(nodes@.len() as int) =~= Seq::<Seq<u8>>::empty());
    }
    Ok(h)
}

/// Verifies that `proof` proves its own value at `key` within the account
/// storage committed by `storage_root`, and returns that stored value.
pub fn verify_storage(storage_root: &Vec<u8>, key: &Vec<u8>, proof: &StorageProof) -> (r: Result<Vec<u8>, EvmError>)
    ensures
        (r is Ok) <==> storage_proof_ok(storage_root@, key@, proof.key@, proof.value@, node_views(proof.proof@)),
        r matches Ok(v) ==> v@ == proof.value@,
        proof.key@ != key@ ==> (r matches Err(e) && e matches EvmError::KeyMismatch { expected, found } && expected@ == key@ && found@ == proof.key@),
        proof.key@ == key@ && proof.proof@.len() == 0 ==> r == Err::<Vec<u8>, EvmError>(EvmError::EmptyProof),
        proof.key@ == key@ && proof.proof@.len() > MAX_PROOF_DEPTH ==> (r matches Err(e) && e matches EvmError::ProofTooDeep { depth, max } && depth == proof.proof@.len() && max == MAX_PROOF_DEPTH),
        (proof.key@ == key@ && 1 <= proof.proof@.len() <= MAX_PROOF_DEPTH && nodes_wf(node_views(proof.proof@)) && fold_proof(leaf_of(key@, proof.value@), node_views(proof.proof@)) != storage_root@) ==> (r matches Err(e) && e matches EvmError::RootMismatch { expected, computed } && expected@ == storage_root@ && computed@ == fold_proof(leaf_of(key@, proof.value@), node_views(proof.proof@))),
{
    if !bytes_eq(&proof.key, key) {
        return Err(EvmError::KeyMismatch { expected: key.clone(), found: proof.key.clone() });
    }
    let leaf = keccak256(&concat_bytes(key, &proof.value));
    let computed = match fold_nodes(leaf, &proof.proof) {
        Ok(h) => h,
        Err(e) => {
            return Err(e);
        },
    };
    if !bytes_eq(&computed, storage_root) {
        return Err(EvmError::RootMismatch { expected: storage_root.clone(), computed });
    }
    Ok(proof.value.clone())
}

/// Verifies that `proof` proves the account at `address` within the world
/// state committed by `root`, and returns the account's storage root.
pub fn verify_account(root: &Vec<u8>, address: &Vec<u8>, proof: &AccountProof) -> (r: Result<Vec<u8>, EvmError>)
    ensures
        (r is Ok) <==> account_proof_ok(root@, address@, proof.storage_root@, node_views(proof.proof@)),
        r matches Ok(v) ==> v@ == proof.storage_root@,
        proof.proof@.len() == 0 ==> r == Err::<Vec<u8>, EvmError>(EvmError::EmptyProof),
        (1 <= proof.proof@.len() <= MAX_PROOF_DEPTH && nodes_wf(node_views(proof.proof@)) && fold_proof(leaf_of(address@, proof.storage_root@), node_views(proof.proof@)) != root@) ==> (r matches Err(e) && e matches EvmError::RootMismatch { expected, computed } && expected@ == root@ && computed@ == fold_proof(leaf_of(address@, proof.storage_root@), node_views(proof.proof@))),
{
    let leaf = keccak256(&concat_bytes(address, &proof.storage_root));
    let computed = match fold_nodes(leaf, &proof.proof) {
        Ok(h) => h,
        Err(e) => {
            return Err(e);
        },
    };
    if !bytes_eq(&computed, root) {
        return Err(EvmError::RootMismatch { expected: root.clone(), computed });
    }
    Ok(proof.storage_root.clone())
}

/// A membership query is accepted exactly when the commitment key and value
/// are 32 bytes, the proof names that key, the proof chains to the root, and
/// the stored value equals the claimed value in full.
pub open spec fn membership_ok(root: Seq<u8>, key: Seq<u8>, value: Seq<u8>, proof_key: Seq<u8>, proof_value: Seq<u8>, nodes: Seq<Seq<u8>>) -> bool {
    &&& key.len() == 32
    &&& value.len() == 32
    &&& storage_proof_ok(root, key, proof_key, proof_value, nodes)
    &&& proof_value == value
}

/// Verifies that `value` is stored at commitment key `key` under `root`.
/// The stored and claimed values are compared in full, position by position.
pub fn verify_membership(root: &Vec<u8>, key: &Vec<u8>, value: &Vec<u8>, proof: &StorageProof) -> (r: Result<(), Error>)
    ensures
        (r is Ok) <==> membership_ok(root@, key@, value@, proof.key@, proof.value@, node_views(proof.proof@)),
        key@.len() == 0 ==> r == Err::<(), Error>(Error::EmptyIbcPath),
        0 < key@.len() && key@.len() != 32 ==> (r matches Err(e) && e matches Error::InvalidCommitmentKeyLength(k) && k@ == key@),
        key@.len() == 32 && value@.len() != 32 ==> (r matches Err(e) && e matches Error::InvalidCommitmentValueLength(v) && v@ == value@),
        (key@.len() == 32 && value@.len() == 32 && proof.key@ == key@ && proof.proof@.len() == 0) ==> r == Err::<(), Error>(Error::EmptyProof),
        (key@.len() == 32 && value@.len() == 32 && !storage_proof_ok(root@, key@, proof.key@, proof.value@, node_views(proof.proof@))) ==> (r matches Err(e) && (e matches Error::Evm(inner) || e == Error::EmptyProof)),
        (key@.len() == 32 && value@.len() == 32 && storage_proof_ok(root@, key@, proof.key@, proof.value@, node_views(proof.proof@)) && proof.value@ != value@) ==> (r matches Err(e) && e matches Error::StoredValueMismatch { expected, stored } && expected@ == value@ && stored@ == proof.value@),
{
    if key.len() == 0 {
        return Err(Error::EmptyIbcPath);
    }
    if key.len() != 32 {
        return Err(Error::InvalidCommitmentKeyLength(key.clone()));
    }
    if value.len() != 32 {
        return Err(Error::InvalidCommitmentValueLength(value.clone()));
    }
    let stored = match verify_storage(root, key, proof) {
        Ok(v) => v,
        Err(EvmError::EmptyProof) => {
            return Err(Error::EmptyProof);
        },
        Err(e) => {
            return Err(Error::Evm(e));
        },
    };
    if !bytes_eq(&stored, value) {
        return Err(Error::StoredValueMismatch { expected: value.clone(), stored });
    }
    Ok(())
}

/// A non-membership query is accepted exactly when the key is 32 bytes and
/// the proof shows the all-zero sentinel stored at that key.
pub open spec fn non_membership_ok(root: Seq<u8>, key: Seq<u8>, proof_key: Seq<u8>, proof_value: Seq<u8>, nodes: Seq<Seq<u8>>) -> bool {
    &&& key.len() == 32
    &&& storage_proof_ok(root, key, proof_key, proof_value, nodes)
    &&& is_zero32(proof_value)
}

/// Verifies that no value is stored at commitment key `key` under `root`:
/// the slot must provably hold the all-zero sentinel.
pub fn verify_non_membership(root: &Vec<u8>, key: &Vec<u8>, proof: &StorageProof) -> (r: Result<(), Error>)
    ensures
        (r is Ok) <==> non_membership_ok(root@, key@, proof.key@, proof.value@, node_views(proof.proof@)),
        key@.len() != 32 ==> (r matches Err(e) && e matches Error::InvalidCommitmentKeyLength(k) && k@ == key@),
        (key@.len() == 32 && storage_proof_ok(root@, key@, proof.key@, proof.value@, node_views(proof.proof@)) && !is_zero32(proof.value@)) ==> (r matches Err(e) && e matches Error::StoredValueMismatch { expected, stored } && is_zero32(expected@) && stored@ == proof.value@),
{
    if key.len() != 32 {
        return Err(Error::InvalidCommitmentKeyLength(key.clone()));
    }
    let stored = match verify_storage(root, key, proof) {
        Ok(v) => v,
        Err(EvmError::EmptyProof) => {
            return Err(Error::EmptyProof);
        },
        Err(e) => {
            return Err(Error::Evm(e));
        },
    };
    let zero = zero_bytes(32);
    if !bytes_eq(&stored, &zero) {
        proof {
            if is_zero32(stored@) {
                assert(stored@ =~= zero@);
            }
        }
        return Err(Error::StoredValueMismatch { expected: zero, stored });
    }
    Ok(())
}

} // verus!
