//! The block-service message shapes of the host chain's RPC: plain request
//! and response records, each knowing its fully qualified protocol name.
//! The service itself is the relayer-side collaborator's concern.

use vstd::prelude::*;
use vstd::string::StringExecFns;

verus! {

/// Identifies a block by its hash.
#[derive(Debug, Clone, PartialEq, Eq)]
pub struct BlockId {
    pub hash: Vec<u8>,
}

/// A committed block: its height and its raw payload.
#[derive(Debug, Clone, PartialEq, Eq)]
pub struct Block {
    pub height: i64,
    pub data: Vec<u8>,
}

/// A request for the block at the given height.
#[derive(Debug, Clone, Copy, PartialEq, Eq, Structural)]
pub struct GetByHeightRequest {
    pub height: i64,
}

impl GetByHeightRequest {
    /// The fully qualified protocol name of this message.
    pub fn full_name() -> (r: String)
        ensures
            r@ == "cometbft.services.block.v1.GetByHeightRequest"@,
    {
        String::from_str("cometbft.services.block.v1.GetByHeightRequest")
    }
}

/// The block id and block at the requested height.
#[derive(Debug, Clone, PartialEq, Eq)]
pub struct GetByHeightResponse {
    pub block_id: Option<BlockId>,
    pub block: Option<Block>,
}

impl GetByHeightResponse {
    /// The fully qualified protocol name of this message.
    pub fn full_name() -> (r: String)
        ensures
            r@ == "cometbft.services.block.v1.GetByHeightResponse"@,
    {
        String::from_str("cometbft.services.block.v1.GetByHeightResponse")
    }
}

/// A request for the latest committed height; it carries nothing.
#[derive(Debug, Clone, Copy, PartialEq, Eq, Structural)]
pub struct GetLatestHeightRequest {}

impl GetLatestHeightRequest {
    /// The fully qualified protocol name of this message.
    pub fn full_name() -> (r: String)
        ensures
            r@ == "cometbft.services.block.v1.GetLatestHeightRequest"@,
    {
        String::from_str("cometbft.services.block.v1.GetLatestHeightRequest")
    }
}

/// The height of the latest committed block; 0 before anything commits.
#[derive(Debug, Clone, Copy, PartialEq, Eq, Structural)]
pub struct GetLatestHeightResponse {
    pub height: i64,
}

impl GetLatestHeightResponse {
    /// The fully qualified protocol name of this message.
    pub fn full_name() -> (r: String)
        ensures
            r@ == "cometbft.services.block.v1.GetLatestHeightResponse"@,
    {
        String::from_str("cometbft.services.block.v1.GetLatestHeightResponse")
    }
}

} // verus!
