//! The untrusted header bundle a relayer submits for a layered (rollup)
//! client: an anchor height on the settlement chain, the proof chain across
//! the two layers, and the terminal rollup header.

use vstd::prelude::*;
use crate::codec::{u64_be_bytes, u64_be_spec};
use crate::bytes::concat_bytes;
use crate::hash::{keccak_of, keccak256};
use crate::height::Height;
use crate::merkle::{AccountProof, StorageProof};

verus! {

/// The terminal rollup header: the fields the rollup's commitment scheme
/// hashes, plus the state root the new consensus state records.
#[derive(Debug, Clone, PartialEq, Eq)]
pub struct L2Header {
    pub height: u64,
    pub state_root: Vec<u8>,
    pub timestamp: u64,
}

/// The commitment digest of a rollup header: the hash of its height, state
/// root and timestamp, each integer in fixed-width big-endian form. This is
/// the value the settlement chain finalizes for the corresponding node.
pub open spec fn l2_commitment_digest(h: L2Header) -> Seq<u8> {
    keccak_of(u64_be_spec(h.height) + h.state_root@ + u64_be_spec(h.timestamp))
}

impl L2Header {
    /// Recomputes this header's commitment digest.
    pub fn commitment_digest(&self) -> (r: Vec<u8>)
        ensures
            r@ == l2_commitment_digest(*self),
            r@.len() == 32,
    {
        let mut enc = u64_be_bytes(self.height);
        enc = concat_bytes(&enc, &self.state_root);
        enc = concat_bytes(&enc, &u64_be_bytes(self.timestamp));
        proof {
            assert(enc@ =~= u64_be_spec(self.height) + self.state_root@ + u64_be_spec(self.timestamp));
        }
        keccak256(&enc)
    }
}

/// The header bundle for a two-layer (rollup over settlement chain) client.
#[derive(Debug, Clone, PartialEq, Eq)]
pub struct Header {
    pub l1_height: Height,
    pub l1_account_proof: AccountProof,
    pub l2_ibc_account_proof: AccountProof,
    pub l1_next_node_num_slot_proof: StorageProof,
    pub l1_nodes_slot_proof: StorageProof,
    pub l2_header: L2Header,
}

/// The wire shape of [`Header`]: every field is optional on the wire, and
/// decoding fails naming the first absent field.
#[derive(Debug, Clone, PartialEq, Eq)]
pub struct RawHeader {
    pub l1_height: Option<Height>,
    pub l1_account_proof: Option<AccountProof>,
    pub l2_ibc_account_proof: Option<AccountProof>,
    pub l1_next_node_num_slot_proof: Option<StorageProof>,
    pub l1_nodes_slot_proof: Option<StorageProof>,
    pub l2_header: Option<L2Header>,
}

/// A required wire field was absent; each variant names the field path.
#[derive(Debug, Clone, Copy, PartialEq, Eq, Structural)]
pub enum HeaderError {
    MissingL1Height,
    MissingL1AccountProof,
    MissingL2IbcAccountProof,
    MissingL1NextNodeNumSlotProof,
    MissingL1NodesSlotProof,
    MissingL2Header,
}

impl Header {
    /// Converts the wire shape into a [`Header`], failing with the name of
    /// the first absent field, in field order.
    pub fn try_from(value: RawHeader) -> (r: Result<Header, HeaderError>)
        ensures
            (r is Ok) <==> {
                &&& value.l1_height is Some
                &&& value.l1_account_proof is Some
                &&& value.l2_ibc_account_proof is Some
                &&& value.l1_next_node_num_slot_proof is Some
                &&& value.l1_nodes_slot_proof is Some
                &&& value.l2_header is Some
            },
            r matches Ok(h) ==> {
                &&& h.l1_height == value.l1_height->0
                &&& h.l1_account_proof == value.l1_account_proof->0
                &&& h.l2_ibc_account_proof == value.l2_ibc_account_proof->0
                &&& h.l1_next_node_num_slot_proof == value.l1_next_node_num_slot_proof->0
                &&& h.l1_nodes_slot_proof == value.l1_nodes_slot_proof->0
                &&& h.l2_header == value.l2_header->0
            },
            value.l1_height is None ==> r == Err::<Header, HeaderError>(HeaderError::MissingL1Height),
            value.l1_height is Some && value.l1_account_proof is None ==> r == Err::<Header, HeaderError>(HeaderError::MissingL1AccountProof),
            value.l1_height is Some && value.l1_account_proof is Some && value.l2_ibc_account_proof is None ==> r == Err::<Header, HeaderError>(HeaderError::MissingL2IbcAccountProof),
            value.l1_height is Some && value.l1_account_proof is Some && value.l2_ibc_account_proof is Some && value.l1_next_node_num_slot_proof is None ==> r == Err::<Header, HeaderError>(HeaderError::MissingL1NextNodeNumSlotProof),
            value.l1_height is Some && value.l1_account_proof is Some && value.l2_ibc_account_proof is Some && value.l1_next_node_num_slot_proof is Some && value.l1_nodes_slot_proof is None ==> r == Err::<Header, HeaderError>(HeaderError::MissingL1NodesSlotProof),
            value.l1_height is Some && value.l1_account_proof is Some && value.l2_ibc_account_proof is Some && value.l1_next_node_num_slot_proof is Some && value.l1_nodes_slot_proof is Some && value.l2_header is None ==> r == Err::<Header, HeaderError>(HeaderError::MissingL2Header),
    {
        let l1_height = match value.l1_height {
            Some(v) => v,
            None => {
                return Err(HeaderError::MissingL1Height);
            },
        };
        let l1_account_proof = match value.l1_account_proof {
            Some(v) => v,
            None => {
                return Err(HeaderError::MissingL1AccountProof);
            },
        };
        let l2_ibc_account_proof = match value.l2_ibc_account_proof {
            Some(v) => v,
            None => {
                return Err(HeaderError::MissingL2IbcAccountProof);
            },
        };
        let l1_next_node_num_slot_proof = match value.l1_next_node_num_slot_proof {
            Some(v) => v,
            None => {
                return Err(HeaderError::MissingL1NextNodeNumSlotProof);
            },
        };
        let l1_nodes_slot_proof = match value.l1_nodes_slot_proof {
            Some(v) => v,
            None => {
                return Err(HeaderError::MissingL1NodesSlotProof);
            },
        };
        let l2_header = match value.l2_header {
            Some(v) => v,
            None => {
                return Err(HeaderError::MissingL2Header);
            },
        };
        Ok(Header {
            l1_height,
            l1_account_proof,
            l2_ibc_account_proof,
            l1_next_node_num_slot_proof,
            l1_nodes_slot_proof,
            l2_header,
        })
    }
}

impl RawHeader {
    /// Converts a [`Header`] into its wire shape; every field is populated.
    pub fn from(value: Header) -> (r: RawHeader)
        ensures
            r.l1_height == Some(value.l1_height),
            r.l1_account_proof == Some(value.l1_account_proof),
            r.l2_ibc_account_proof == Some(value.l2_ibc_account_proof),
            r.l1_next_node_num_slot_proof == Some(value.l1_next_node_num_slot_proof),
            r.l1_nodes_slot_proof == Some(value.l1_nodes_slot_proof),
            r.l2_header == Some(value.l2_header),
    {
        RawHeader {
            l1_height: Some(value.l1_height),
            l1_account_proof: Some(value.l1_account_proof),
            l2_ibc_account_proof: Some(value.l2_ibc_account_proof),
            l1_next_node_num_slot_proof: Some(value.l1_next_node_num_slot_proof),
            l1_nodes_slot_proof: Some(value.l1_nodes_slot_proof),
            l2_header: Some(value.l2_header),
        }
    }
}

} // verus!
