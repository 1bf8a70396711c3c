//! The canonical vote: the exact byte sequence a validator signs. Height and
//! round use a fixed-width non-negative encoding — canonicalization mandates
//! fixed width for these two fields, so they must never be shortened to a
//! variable-length form. Variable-length parts carry a length prefix.

use vstd::prelude::*;
use crate::bytes::concat_bytes;
use crate::codec::{lemma_u64_be_zero, u32_be_bytes, u32_be_spec, u64_be_bytes, u64_be_spec};

verus! {

/// The kind of message the vote signs.
#[derive(Clone, Copy, Debug, PartialEq, Eq, Structural)]
pub enum SignedMsgType {
    Unknown,
    Prevote,
    Precommit,
    Proposal,
}

/// The byte each message kind encodes to.
pub open spec fn msg_type_byte(t: SignedMsgType) -> u8 {
    match t {
        SignedMsgType::Unknown => 0,
        SignedMsgType::Prevote => 1,
        SignedMsgType::Precommit => 2,
        SignedMsgType::Proposal => 32,
    }
}

impl SignedMsgType {
    pub fn as_byte(&self) -> (r: u8)
        ensures
            r == msg_type_byte(*self),
    {
        match self {
            SignedMsgType::Unknown => 0,
            SignedMsgType::Prevote => 1,
            SignedMsgType::Precommit => 2,
            SignedMsgType::Proposal => 32,
        }
    }
}

/// Rejected when constructing a bounded value out of range.
#[derive(Clone, Copy, Debug, PartialEq, Eq, Structural)]
pub enum BoundedIntError {
    Negative,
}

/// A 64-bit signed value bounded to be non-negative. Negative heights and
/// rounds are rejected here, at construction, never at encoding time.
#[derive(Clone, Copy, Debug, PartialEq, Eq, Structural)]
pub struct BoundedI64 {
    pub value: i64,
}

impl BoundedI64 {
    /// The bound every constructed value satisfies.
    pub open spec fn wf(self) -> bool {
        0 <= self.value
    }

    /// Accepts exactly the non-negative values.
    pub fn new(value: i64) -> (r: Result<BoundedI64, BoundedIntError>)
        ensures
            (r is Ok) <==> 0 <= value,
            r matches Ok(b) ==> b.value == value && b.wf(),
            value < 0 ==> r == Err::<BoundedI64, BoundedIntError>(BoundedIntError::Negative),
    {
        if value < 0 {
            Err(BoundedIntError::Negative)
        } else {
            Ok(BoundedI64 { value })
        }
    }
}

/// The part-set header inside a canonical block id.
#[derive(Debug, Clone, PartialEq, Eq)]
pub struct CanonicalPartSetHeader {
    pub total: u32,
    pub hash: Vec<u8>,
}

/// The block a vote commits to.
#[derive(Debug, Clone, PartialEq, Eq)]
pub struct CanonicalBlockId {
    pub hash: Vec<u8>,
    pub part_set_header: CanonicalPartSetHeader,
}

/// The exact signed payload of a vote.
#[derive(Debug, Clone, PartialEq, Eq)]
pub struct CanonicalVote {
    /// The message kind, one byte on the wire.
    pub ty: SignedMsgType,
    /// Canonicalization requires fixed-width encoding here.
    pub height: BoundedI64,
    /// Canonicalization requires fixed-width encoding here.
    pub round: BoundedI64,
    pub block_id: CanonicalBlockId,
    /// The chain identifier's bytes.
    pub chain_id: Vec<u8>,
}

/// The wire shape of a canonical vote: plain integers, the block id present.
#[derive(Debug, Clone, PartialEq, Eq)]
pub struct RawCanonicalVote {
    pub ty: u8,
    pub height: i64,
    pub round: i64,
    pub block_id: Option<CanonicalBlockId>,
    pub chain_id: Vec<u8>,
}

impl RawCanonicalVote {
    /// Converts a vote into its wire shape; every field is populated.
    pub fn from(value: CanonicalVote) -> (r: RawCanonicalVote)
        ensures
            r.ty == msg_type_byte(value.ty),
            r.height == value.height.value,
            r.round == value.round.value,
            r.block_id == Some(value.block_id),
            r.chain_id == value.chain_id,
    {
        RawCanonicalVote {
            ty: value.ty.as_byte(),
            height: value.height.value,
            round: value.round.value,
            block_id: Some(value.block_id),
            chain_id: value.chain_id,
        }
    }
}

/// The canonical encoding: the kind byte; the height and the round, each 8
/// fixed-width big-endian bytes; then the length-prefixed block-id hash, the
/// part count, the length-prefixed part-set hash, and the length-prefixed
/// chain id.
pub open spec fn encode_vote_spec(v: CanonicalVote) -> Seq<u8> {
    seq![msg_type_byte(v.ty)] + u64_be_spec(v.height.value as u64) + u64_be_spec(
        v.round.value as u64,
    ) + u64_be_spec(v.block_id.hash@.len() as u64) + v.block_id.hash@ + u32_be_spec(
        v.block_id.part_set_header.total,
    ) + u64_be_spec(v.block_id.part_set_header.hash@.len() as u64)
        + v.block_id.part_set_header.hash@ + u64_be_spec(v.chain_id@.len() as u64) + v.chain_id@
}

/// Produces the exact byte sequence a validator signs for this vote.
pub fn encode_canonical_vote(v: &CanonicalVote) -> (r: Vec<u8>)
    requires
        v.height.wf(),
        v.round.wf(),
    ensures
        r@ == encode_vote_spec(*v),
{
    let mut r: Vec<u8> = Vec::new();
    r.push(v.ty.as_byte());
    r = concat_bytes(&r, &u64_be_bytes(v.height.value as u64));
    r = concat_bytes(&r, &u64_be_bytes(v.round.value as u64));
    r = concat_bytes(&r, &u64_be_bytes(v.block_id.hash.len() as u64));
    r = concat_bytes(&r, &v.block_id.hash);
    r = concat_bytes(&r, &u32_be_bytes(v.block_id.part_set_header.total));
    r = concat_bytes(&r, &u64_be_bytes(v.block_id.part_set_header.hash.len() as u64));
    r = concat_bytes(&r, &v.block_id.part_set_header.hash);
    r = concat_bytes(&r, &u64_be_bytes(v.chain_id.len() as u64));
    r = concat_bytes(&r, &v.chain_id);
    proof {
        assert(r@ =~= encode_vote_spec(*v));
    }
    r
}

/// Height 0 and round 0 occupy their full fixed-width fields, zero-filled:
/// bytes 1 through 16 of the encoding are all zero.
pub proof fn lemma_zero_height_round_zero_filled(v: CanonicalVote)
    requires
        v.height.value == 0,
        v.round.value == 0,
    ensures
        encode_vote_spec(v).len() >= 17,
        forall|i: int| 1 <= i < 17 ==> encode_vote_spec(v)[i] == 0,
{
    lemma_u64_be_zero();
    let e = encode_vote_spec(v);
    assert forall|i: int| 1 <= i < 17 implies e[i] == 0 by {
        if i < 9 {
            assert(e[i] == u64_be_spec(0)[i - 1]);
        } else {
            assert(e[i] == u64_be_spec(0)[i - 9]);
        }
    }
}

} // verus!
