//! The client module for the execution-layer client: wire codecs for its
//! client and consensus states, metadata decoding, and cross-encoding of a
//! counterparty's states between wire dialects.
//!
//! Wire layouts are fixed-width with every field present: decoding reports
//! the first absent field by name, encoding always populates all fields.

use vstd::prelude::*;
use crate::bytes::{concat_bytes, subrange_vec};
use crate::codec::{lemma_u64_be_round_trip, u64_be_bytes, u64_be_spec, u64_from_be_bytes, u64_of_be};
use crate::header::L2Header;
use crate::height::Height;
use crate::merkle::StorageProof;

verus! {

/// The revision number under which execution-layer heights are recorded.
pub const ETHEREUM_REVISION_NUMBER: u64 = 0;

/// The chain preset the module serves.
#[derive(Clone, Copy, Debug, PartialEq, Eq, Structural)]
pub enum PresetBaseKind {
    Minimal,
    Mainnet,
}

/// The client type each preset maps to.
#[derive(Clone, Copy, Debug, PartialEq, Eq, Structural)]
pub enum ClientTypeKind {
    EthereumMinimal,
    EthereumMainnet,
}

/// The one wire dialect this module serves.
#[derive(Clone, Copy, Debug, PartialEq, Eq, Structural)]
pub enum IbcInterfaceKind {
    IbcGoV8Wasm,
}

/// What the module announces: its client type and wire dialect.
#[derive(Clone, Copy, Debug, PartialEq, Eq, Structural)]
pub struct ClientModuleInfo {
    pub client_type: ClientTypeKind,
    pub ibc_interface: IbcInterfaceKind,
}

/// The client type a preset serves.
pub open spec fn client_type_for(spec: PresetBaseKind) -> ClientTypeKind {
    match spec {
        PresetBaseKind::Minimal => ClientTypeKind::EthereumMinimal,
        PresetBaseKind::Mainnet => ClientTypeKind::EthereumMainnet,
    }
}

#[derive(Clone, Copy, Debug, PartialEq, Eq, Structural)]
pub struct Config {
    pub chain_spec: PresetBaseKind,
}

#[derive(Clone, Copy, Debug, PartialEq, Eq, Structural)]
pub struct Module {
    pub chain_spec: PresetBaseKind,
}

/// Module construction cannot fail: this type only fills the error slot of
/// the result, and no function of this library ever returns a value of it.
#[derive(Debug, Clone, Copy, PartialEq, Eq, Structural)]
pub struct ModuleInitError;

impl Module {
    pub fn new(config: Config) -> (r: Result<Module, ModuleInitError>)
        ensures
            r == Ok::<Module, ModuleInitError>(Module { chain_spec: config.chain_spec }),
    {
        Ok(Module { chain_spec: config.chain_spec })
    }

    /// What a module built from this configuration announces.
    pub fn info(config: Config) -> (r: ClientModuleInfo)
        ensures
            r.client_type == client_type_for(config.chain_spec),
            r.ibc_interface == IbcInterfaceKind::IbcGoV8Wasm,
    {
        ClientModuleInfo {
            client_type: match config.chain_spec {
                PresetBaseKind::Minimal => ClientTypeKind::EthereumMinimal,
                PresetBaseKind::Mainnet => ClientTypeKind::EthereumMainnet,
            },
            ibc_interface: IbcInterfaceKind::IbcGoV8Wasm,
        }
    }

    /// What this module announces.
    pub fn supported_interface(&self) -> (r: ClientModuleInfo)
        ensures
            r.client_type == client_type_for(self.chain_spec),
            r.ibc_interface == IbcInterfaceKind::IbcGoV8Wasm,
    {
        Module::info(Config { chain_spec: self.chain_spec })
    }

    /// An execution-layer height: the fixed revision over the given slot.
    pub fn make_height(revision_height: u64) -> (r: Height)
        ensures
            r.revision_number == ETHEREUM_REVISION_NUMBER,
            r.revision_height == revision_height,
    {
        Height { revision_number: ETHEREUM_REVISION_NUMBER, revision_height }
    }
}

/// The execution-layer client state the module codes.
#[derive(Debug, Clone, PartialEq, Eq, Structural)]
pub struct ClientState {
    pub chain_id: u64,
    pub latest_slot: u64,
}

/// The execution-layer consensus state the module codes.
#[derive(Debug, Clone, PartialEq, Eq)]
pub struct ConsensusState {
    pub slot: u64,
    pub state_root: Vec<u8>,
    /// Nanoseconds.
    pub timestamp: u64,
}

/// A client state wrapped for the hosting wire dialect: the inner state, the
/// code checksum, and the latest height.
#[derive(Debug, Clone, PartialEq, Eq)]
pub struct WasmClientState {
    pub data: ClientState,
    pub checksum: Vec<u8>,
    pub latest_height: Height,
}

/// A decode failure names the first absent field; extra bytes are refused.
#[derive(Clone, Copy, Debug, PartialEq, Eq, Structural)]
pub enum CodecError {
    MissingChainId,
    MissingLatestSlot,
    MissingChecksum,
    MissingLatestHeight,
    MissingSlot,
    MissingStateRoot,
    MissingTimestamp,
    TrailingBytes,
}

/// The wire bytes of a wrapped client state: chain id, latest slot, the
/// 32-byte checksum, then the latest height's two components, all fixed
/// width.
pub open spec fn encode_client_state_spec(w: WasmClientState) -> Seq<u8> {
    u64_be_spec(w.data.chain_id) + u64_be_spec(w.data.latest_slot) + w.checksum@ + u64_be_spec(
        w.latest_height.revision_number,
    ) + u64_be_spec(w.latest_height.revision_height)
}

/// Encodes a wrapped client state; every field is populated.
pub fn encode_client_state(w: &WasmClientState) -> (r: Vec<u8>)
    requires
        w.checksum@.len() == 32,
    ensures
        r@ == encode_client_state_spec(*w),
        r@.len() == 64,
{
    let mut r = u64_be_bytes(w.data.chain_id);
    r = concat_bytes(&r, &u64_be_bytes(w.data.latest_slot));
    r = concat_bytes(&r, &w.checksum);
    r = concat_bytes(&r, &u64_be_bytes(w.latest_height.revision_number));
    r = concat_bytes(&r, &u64_be_bytes(w.latest_height.revision_height));
    proof {
        assert(r@ =~= encode_client_state_spec(*w));
    }
    r
}

/// The fields a well-formed 64-byte client state decodes to.
pub open spec fn decoded_client_state(b: Seq<u8>) -> WasmClientStateView {
    WasmClientStateView {
        chain_id: u64_of_be(b.subrange(0, 8)) as u64,
        latest_slot: u64_of_be(b.subrange(8, 16)) as u64,
        checksum: b.subrange(16, 48),
        latest_height: Height {
            revision_number: u64_of_be(b.subrange(48, 56)) as u64,
            revision_height: u64_of_be(b.subrange(56, 64)) as u64,
        },
    }
}

/// The model of a decoded client state.
pub struct WasmClientStateView {
    pub chain_id: u64,
    pub latest_slot: u64,
    pub checksum: Seq<u8>,
    pub latest_height: Height,
}

impl View for WasmClientState {
    type V = WasmClientStateView;

    open spec fn view(&self) -> WasmClientStateView {
        WasmClientStateView {
            chain_id: self.data.chain_id,
            latest_slot: self.data.latest_slot,
            checksum: self.checksum@,
            latest_height: self.latest_height,
        }
    }
}

/// Decodes a wrapped client state, naming the first field the input is too
/// short to hold; input beyond the last field is refused.
pub fn decode_client_state(bytes: &Vec<u8>) -> (r: Result<WasmClientState, CodecError>)
    ensures
        (r is Ok) <==> bytes@.len() == 64,
        r matches Ok(w) ==> w@ == decoded_client_state(bytes@) && w.checksum@.len() == 32,
        bytes@.len() < 8 ==> r == Err::<WasmClientState, CodecError>(CodecError::MissingChainId),
        8 <= bytes@.len() < 16 ==> r == Err::<WasmClientState, CodecError>(CodecError::MissingLatestSlot),
        16 <= bytes@.len() < 48 ==> r == Err::<WasmClientState, CodecError>(CodecError::MissingChecksum),
        48 <= bytes@.len() < 64 ==> r == Err::<WasmClientState, CodecError>(CodecError::MissingLatestHeight),
        bytes@.len() > 64 ==> r == Err::<WasmClientState, CodecError>(CodecError::TrailingBytes),
{
    let n = bytes.len();
    if n < 8 {
        return Err(CodecError::MissingChainId);
    }
    if n < 16 {
        return Err(CodecError::MissingLatestSlot);
    }
    if n < 48 {
        return Err(CodecError::MissingChecksum);
    }
    if n < 64 {
        return Err(CodecError::MissingLatestHeight);
    }
    if n > 64 {
        return Err(CodecError::TrailingBytes);
    }
    let chain_id = u64_from_be_bytes(&subrange_vec(bytes, 0, 8));
    let latest_slot = u64_from_be_bytes(&subrange_vec(bytes, 8, 16));
    let checksum = subrange_vec(bytes, 16, 48);
    let revision_number = u64_from_be_bytes(&subrange_vec(bytes, 48, 56));
    let revision_height = u64_from_be_bytes(&subrange_vec(bytes, 56, 64));
    Ok(WasmClientState {
        data: ClientState { chain_id, latest_slot },
        checksum,
        latest_height: Height { revision_number, revision_height },
    })
}

/// A client state survives the round trip through the wire unchanged:
/// decoding what encoding produced yields the model that was encoded.
pub proof fn lemma_client_state_wire_round_trip(w: WasmClientState)
    requires
        w.checksum@.len() == 32,
    ensures
        decoded_client_state(encode_client_state_spec(w)) == w@,
{
    let b = encode_client_state_spec(w);
    assert(b.subrange(0, 8) =~= u64_be_spec(w.data.chain_id));
    assert(b.subrange(8, 16) =~= u64_be_spec(w.data.latest_slot));
    assert(b.subrange(16, 48) =~= w.checksum@);
    assert(b.subrange(48, 56) =~= u64_be_spec(w.latest_height.revision_number));
    assert(b.subrange(56, 64) =~= u64_be_spec(w.latest_height.revision_height));
    lemma_u64_be_round_trip(w.data.chain_id);
    lemma_u64_be_round_trip(w.data.latest_slot);
    lemma_u64_be_round_trip(w.latest_height.revision_number);
    lemma_u64_be_round_trip(w.latest_height.revision_height);
}

/// A consensus state survives the round trip through the wire unchanged.
pub proof fn lemma_consensus_state_wire_round_trip(c: ConsensusState)
    requires
        c.state_root@.len() == 32,
    ensures
        u64_of_be(encode_consensus_state_spec(c).subrange(0, 8)) == c.slot,
        encode_consensus_state_spec(c).subrange(8, 40) == c.state_root@,
        u64_of_be(encode_consensus_state_spec(c).subrange(40, 48)) == c.timestamp,
{
    let b = encode_consensus_state_spec(c);
    assert(b.subrange(0, 8) =~= u64_be_spec(c.slot));
    assert(b.subrange(8, 40) =~= c.state_root@);
    assert(b.subrange(40, 48) =~= u64_be_spec(c.timestamp));
    lemma_u64_be_round_trip(c.slot);
    lemma_u64_be_round_trip(c.timestamp);
}

/// The client-state metadata a relayer asks for: the chain and the height.
#[derive(Clone, Copy, Debug, PartialEq, Eq, Structural)]
pub struct ClientStateMeta {
    pub chain_id: u64,
    pub height: Height,
}

/// Decodes only what the metadata needs: the chain id, and the latest slot
/// under the module's fixed revision.
pub fn decode_client_state_meta(bytes: &Vec<u8>) -> (r: Result<ClientStateMeta, CodecError>)
    ensures
        (r is Ok) <==> bytes@.len() == 64,
        r matches Ok(m) ==> {
            &&& m.chain_id == decoded_client_state(bytes@).chain_id
            &&& m.height == (Height {
                revision_number: ETHEREUM_REVISION_NUMBER,
                revision_height: decoded_client_state(bytes@).latest_slot,
            })
        },
{
    let w = match decode_client_state(bytes) {
        Ok(w) => w,
        Err(e) => {
            return Err(e);
        },
    };
    Ok(ClientStateMeta {
        chain_id: w.data.chain_id,
        height: Module::make_height(w.data.latest_slot),
    })
}

/// The wire bytes of a consensus state: slot, the 32-byte state root, then
/// the timestamp, all fixed width.
pub open spec fn encode_consensus_state_spec(c: ConsensusState) -> Seq<u8> {
    u64_be_spec(c.slot) + c.state_root@ + u64_be_spec(c.timestamp)
}

/// Encodes a consensus state; every field is populated.
pub fn encode_consensus_state(c: &ConsensusState) -> (r: Vec<u8>)
    requires
        c.state_root@.len() == 32,
    ensures
        r@ == encode_consensus_state_spec(*c),
        r@.len() == 48,
{
    let mut r = u64_be_bytes(c.slot);
    r = concat_bytes(&r, &c.state_root);
    r = concat_bytes(&r, &u64_be_bytes(c.timestamp));
    proof {
        assert(r@ =~= encode_consensus_state_spec(*c));
    }
    r
}

/// Decodes a consensus state, naming the first absent field.
pub fn decode_consensus_state(bytes: &Vec<u8>) -> (r: Result<ConsensusState, CodecError>)
    ensures
        (r is Ok) <==> bytes@.len() == 48,
        r matches Ok(c) ==> {
            &&& c.slot == u64_of_be(bytes@.subrange(0, 8))
            &&& c.state_root@ == bytes@.subrange(8, 40)
            &&& c.timestamp == u64_of_be(bytes@.subrange(40, 48))
        },
        bytes@.len() < 8 ==> r == Err::<ConsensusState, CodecError>(CodecError::MissingSlot),
        8 <= bytes@.len() < 40 ==> r == Err::<ConsensusState, CodecError>(CodecError::MissingStateRoot),
        40 <= bytes@.len() < 48 ==> r == Err::<ConsensusState, CodecError>(CodecError::MissingTimestamp),
        bytes@.len() > 48 ==> r == Err::<ConsensusState, CodecError>(CodecError::TrailingBytes),
{
    let n = bytes.len();
    if n < 8 {
        return Err(CodecError::MissingSlot);
    }
    if n < 40 {
        return Err(CodecError::MissingStateRoot);
    }
    if n < 48 {
        return Err(CodecError::MissingTimestamp);
    }
    if n > 48 {
        return Err(CodecError::TrailingBytes);
    }
    let slot = u64_from_be_bytes(&subrange_vec(bytes, 0, 8));
    let state_root = subrange_vec(bytes, 8, 40);
    let timestamp = u64_from_be_bytes(&subrange_vec(bytes, 40, 48));
    Ok(ConsensusState { slot, state_root, timestamp })
}

/// The consensus-state metadata a relayer asks for.
#[derive(Clone, Copy, Debug, PartialEq, Eq, Structural)]
pub struct ConsensusStateMeta {
    pub timestamp_nanos: u64,
}

/// Decodes only the timestamp.
pub fn decode_consensus_state_meta(bytes: &Vec<u8>) -> (r: Result<ConsensusStateMeta, CodecError>)
    ensures
        (r is Ok) <==> bytes@.len() == 48,
        r matches Ok(m) ==> m.timestamp_nanos == u64_of_be(bytes@.subrange(40, 48)),
{
    let c = match decode_consensus_state(bytes) {
        Ok(c) => c,
        Err(e) => {
            return Err(e);
        },
    };
    Ok(ConsensusStateMeta { timestamp_nanos: c.timestamp })
}

/// The wire bytes of the header the module submits: the rollup header's
/// height and timestamp, then its length-prefixed state root.
pub open spec fn encode_header_spec(h: L2Header) -> Seq<u8> {
    u64_be_spec(h.height) + u64_be_spec(h.timestamp) + u64_be_spec(h.state_root@.len() as u64)
        + h.state_root@
}

/// Encodes a header for submission; every field is populated.
pub fn encode_header(h: &L2Header) -> (r: Vec<u8>)
    ensures
        r@ == encode_header_spec(*h),
{
    let mut r = u64_be_bytes(h.height);
    r = concat_bytes(&r, &u64_be_bytes(h.timestamp));
    r = concat_bytes(&r, &u64_be_bytes(h.state_root.len() as u64));
    r = concat_bytes(&r, &h.state_root);
    proof {
        assert(r@ =~= encode_header_spec(*h));
    }
    r
}

/// The wire bytes of a node list: the count, then each node length-prefixed.
pub open spec fn encode_nodes_spec(nodes: Seq<Seq<u8>>) -> Seq<u8>
    decreases nodes.len(),
{
    if nodes.len() == 0 {
        Seq::empty()
    } else {
        encode_nodes_spec(nodes.drop_last()) + u64_be_spec(nodes.last().len() as u64)
            + nodes.last()
    }
}

/// The wire bytes of a storage proof: the length-prefixed key and value,
/// the node count, then each node length-prefixed.
pub open spec fn encode_proof_spec(p: StorageProof) -> Seq<u8> {
    u64_be_spec(p.key@.len() as u64) + p.key@ + u64_be_spec(p.value@.len() as u64) + p.value@
        + u64_be_spec(p.proof@.len() as u64) + encode_nodes_spec(
        p.proof@.map_values(|x: Vec<u8>| x@),
    )
}

/// Encodes a storage proof for submission; every field is populated.
pub fn encode_proof(p: &StorageProof) -> (r: Vec<u8>)
    ensures
        r@ == encode_proof_spec(*p),
{
    let mut r = u64_be_bytes(p.key.len() as u64);
    r = concat_bytes(&r, &p.key);
    r = concat_bytes(&r, &u64_be_bytes(p.value.len() as u64));
    r = concat_bytes(&r, &p.value);
    r = concat_bytes(&r, &u64_be_bytes(p.proof.len() as u64));
    let ghost prefix = r@;
    let mut i: usize = 0;
    while i < p.proof.len()
        invariant
            i <= p.proof@.len(),
            r@ == prefix + encode_nodes_spec(
                p.proof@.map_values(|x: Vec<u8>| x@).subrange(0, i as int),
            ),
        decreases p.proof@.len() - i,
    {
        let node = &p.proof[i];
        r = concat_bytes(&r, &u64_be_bytes(node.len() as u64));
        r = concat_bytes(&r, node);
        i = i + 1;
        proof {
            let m = p.proof@.map_values(|x: Vec<u8>| x@);
            assert(m.subrange(0, i as int).drop_last() =~= m.subrange(0, i - 1));
            assert(m.subrange(0, i as int).last() == m[i - 1]);
            assert(r@ =~= prefix + encode_nodes_spec(m.subrange(0, i as int)));
        }
    }
    proof {
        let m = p.proof@.map_values(|x: Vec<u8>| x@);
        assert(m.subrange(0, m.len() as int) =~= m);
        assert(r@ =~= encode_proof_spec(*p));
    }
    r
}

/// A counterparty client type: states of the one special dialect are
/// re-encoded, all others pass through unchanged.
#[derive(Clone, Copy, Debug, PartialEq, Eq, Structural)]
pub enum CounterpartyClientType {
    Cometbls,
    Other,
}

/// A word-aligned counterparty client state: the chain id word, then the
/// latest height's two components, each right-aligned in its own word.
pub open spec fn reencoded_cometbls_client_state(b: Seq<u8>) -> Seq<u8> {
    b.subrange(0, 32) + u64_be_spec(u64_of_be(b.subrange(56, 64)) as u64) + u64_be_spec(
        u64_of_be(b.subrange(88, 96)) as u64,
    )
}

/// Re-encodes a counterparty client state from its word-aligned dialect into
/// this module's fixed-width wire form; any other client type's bytes pass
/// through unchanged. A word-aligned state is three 32-byte words: the chain
/// id, then the two height components.
pub fn reencode_counterparty_client_state(client_state: &Vec<u8>, client_type: CounterpartyClientType) -> (r: Result<Vec<u8>, CodecError>)
    ensures
        client_type == CounterpartyClientType::Other ==> (r matches Ok(v) && v@ == client_state@),
        client_type == CounterpartyClientType::Cometbls && client_state@.len() != 96 ==> r == Err::<Vec<u8>, CodecError>(CodecError::TrailingBytes),
        client_type == CounterpartyClientType::Cometbls && client_state@.len() == 96 ==> (r matches Ok(v) && v@ == reencoded_cometbls_client_state(client_state@)),
{
    match client_type {
        CounterpartyClientType::Other => Ok(subrange_vec(client_state, 0, client_state.len())),
        CounterpartyClientType::Cometbls => {
            if client_state.len() != 96 {
                return Err(CodecError::TrailingBytes);
            }
            let chain_id = subrange_vec(client_state, 0, 32);
            let revision_number = u64_from_be_bytes(&subrange_vec(client_state, 56, 64));
            let revision_height = u64_from_be_bytes(&subrange_vec(client_state, 88, 96));
            let mut r = chain_id;
            r = concat_bytes(&r, &u64_be_bytes(revision_number));
            r = concat_bytes(&r, &u64_be_bytes(revision_height));
            proof {
                assert(r@ =~= reencoded_cometbls_client_state(client_state@));
            }
            Ok(r)
        },
    }
}

/// A word-aligned counterparty consensus state re-encoded: the timestamp
/// word's value, then the two 32-byte hashes.
pub open spec fn reencoded_cometbls_consensus_state(b: Seq<u8>) -> Seq<u8> {
    u64_be_spec(u64_of_be(b.subrange(24, 32)) as u64) + b.subrange(32, 96)
}

/// Re-encodes a counterparty consensus state from its word-aligned dialect:
/// the timestamp right-aligned in the first word, then the app hash and the
/// next-validators hash. Any other client type's bytes pass through.
pub fn reencode_counterparty_consensus_state(consensus_state: &Vec<u8>, client_type: CounterpartyClientType) -> (r: Result<Vec<u8>, CodecError>)
    ensures
        client_type == CounterpartyClientType::Other ==> (r matches Ok(v) && v@ == consensus_state@),
        client_type == CounterpartyClientType::Cometbls && consensus_state@.len() != 96 ==> r == Err::<Vec<u8>, CodecError>(CodecError::TrailingBytes),
        client_type == CounterpartyClientType::Cometbls && consensus_state@.len() == 96 ==> (r matches Ok(v) && v@ == reencoded_cometbls_consensus_state(consensus_state@)),
{
    match client_type {
        CounterpartyClientType::Other => Ok(
            subrange_vec(consensus_state, 0, consensus_state.len()),
        ),
        CounterpartyClientType::Cometbls => {
            if consensus_state.len() != 96 {
                return Err(CodecError::TrailingBytes);
            }
            let timestamp = u64_from_be_bytes(&subrange_vec(consensus_state, 24, 32));
            let mut r = u64_be_bytes(timestamp);
            r = concat_bytes(&r, &subrange_vec(consensus_state, 32, 96));
            proof {
                assert(r@ =~= reencoded_cometbls_consensus_state(consensus_state@));
            }
            Ok(r)
        },
    }
}

} // verus!
