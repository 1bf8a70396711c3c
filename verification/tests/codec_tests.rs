use layered_light_client::client_module::{
    decode_client_state, decode_client_state_meta, decode_consensus_state,
    decode_consensus_state_meta, encode_client_state, encode_consensus_state, encode_header,
    encode_proof, reencode_counterparty_client_state, reencode_counterparty_consensus_state,
    ClientState, ClientTypeKind, CodecError, Config, ConsensusState, CounterpartyClientType,
    IbcInterfaceKind, Module, PresetBaseKind, WasmClientState,
};
use layered_light_client::codec::{u32_be_bytes, u64_be_bytes, u64_from_be_bytes};
use layered_light_client::header::L2Header;
use layered_light_client::height::Height;
use layered_light_client::merkle::StorageProof;

#[test]
fn fixed_width_encoding_is_big_endian() {
    assert_eq!(u64_be_bytes(0x0102030405060708), vec![1, 2, 3, 4, 5, 6, 7, 8]);
    assert_eq!(u64_be_bytes(0), vec![0; 8]);
    assert_eq!(u32_be_bytes(0x01020304), vec![1, 2, 3, 4]);
    assert_eq!(u64_from_be_bytes(&vec![1, 2, 3, 4, 5, 6, 7, 8]), 0x0102030405060708);
    assert_eq!(u64_from_be_bytes(&u64_be_bytes(u64::MAX)), u64::MAX);
}

fn wasm_client_state() -> WasmClientState {
    WasmClientState {
        data: ClientState { chain_id: 11155111, latest_slot: 42 },
        checksum: vec![0xC5; 32],
        latest_height: Height { revision_number: 0, revision_height: 42 },
    }
}

#[test]
fn client_state_survives_the_wire_round_trip() {
    let w = wasm_client_state();
    let bytes = encode_client_state(&w);
    assert_eq!(bytes.len(), 64);
    let back = decode_client_state(&bytes).expect("well-formed");
    assert_eq!(back, w);
}

#[test]
fn client_state_decode_names_the_first_absent_field() {
    assert_eq!(decode_client_state(&vec![0; 7]), Err(CodecError::MissingChainId));
    assert_eq!(decode_client_state(&vec![0; 8]), Err(CodecError::MissingLatestSlot));
    assert_eq!(decode_client_state(&vec![0; 16]), Err(CodecError::MissingChecksum));
    assert_eq!(decode_client_state(&vec![0; 48]), Err(CodecError::MissingLatestHeight));
    assert_eq!(decode_client_state(&vec![0; 65]), Err(CodecError::TrailingBytes));
}

#[test]
fn client_state_meta_reads_chain_and_height() {
    let bytes = encode_client_state(&wasm_client_state());
    let meta = decode_client_state_meta(&bytes).expect("well-formed");
    assert_eq!(meta.chain_id, 11155111);
    assert_eq!(meta.height, Height { revision_number: 0, revision_height: 42 });
}

#[test]
fn consensus_state_survives_the_wire_round_trip() {
    let c = ConsensusState { slot: 42, state_root: vec![0xAA; 32], timestamp: 1_700_000_000 };
    let bytes = encode_consensus_state(&c);
    assert_eq!(bytes.len(), 48);
    let back = decode_consensus_state(&bytes).expect("well-formed");
    assert_eq!(back, c);
}

#[test]
fn consensus_state_decode_names_the_first_absent_field() {
    assert_eq!(decode_consensus_state(&vec![0; 7]), Err(CodecError::MissingSlot));
    assert_eq!(decode_consensus_state(&vec![0; 8]), Err(CodecError::MissingStateRoot));
    assert_eq!(decode_consensus_state(&vec![0; 40]), Err(CodecError::MissingTimestamp));
    assert_eq!(decode_consensus_state(&vec![0; 49]), Err(CodecError::TrailingBytes));
}

#[test]
fn consensus_state_meta_reads_the_timestamp() {
    let c = ConsensusState { slot: 1, state_root: vec![0; 32], timestamp: 12345 };
    let meta = decode_consensus_state_meta(&encode_consensus_state(&c)).expect("well-formed");
    assert_eq!(meta.timestamp_nanos, 12345);
}

#[test]
fn header_encoding_is_exact() {
    let h = L2Header { height: 5, state_root: vec![0xAA, 0xBB], timestamp: 9 };
    let mut expected: Vec<u8> = Vec::new();
    expected.extend_from_slice(&5u64.to_be_bytes());
    expected.extend_from_slice(&9u64.to_be_bytes());
    expected.extend_from_slice(&2u64.to_be_bytes());
    expected.extend_from_slice(&[0xAA, 0xBB]);
    assert_eq!(encode_header(&h), expected);
}

#[test]
fn proof_encoding_is_exact() {
    let p = StorageProof {
        key: vec![1, 2],
        value: vec![3],
        proof: vec![vec![4, 5], vec![6]],
    };
    let mut expected: Vec<u8> = Vec::new();
    expected.extend_from_slice(&2u64.to_be_bytes());
    expected.extend_from_slice(&[1, 2]);
    expected.extend_from_slice(&1u64.to_be_bytes());
    expected.extend_from_slice(&[3]);
    expected.extend_from_slice(&2u64.to_be_bytes()); // node count
    expected.extend_from_slice(&2u64.to_be_bytes());
    expected.extend_from_slice(&[4, 5]);
    expected.extend_from_slice(&1u64.to_be_bytes());
    expected.extend_from_slice(&[6]);
    assert_eq!(encode_proof(&p), expected);
}

#[test]
fn cometbls_client_state_is_reencoded_word_by_word() {
    let mut ethabi = vec![0u8; 96];
    ethabi[0..4].copy_from_slice(&[0xC0, 0xFF, 0xEE, 0x01]); // chain id word
    ethabi[56..64].copy_from_slice(&7u64.to_be_bytes()); // revision number word
    ethabi[88..96].copy_from_slice(&42u64.to_be_bytes()); // revision height word
    let out = reencode_counterparty_client_state(&ethabi, CounterpartyClientType::Cometbls)
        .expect("well-formed");
    assert_eq!(out.len(), 48);
    assert_eq!(&out[0..32], &ethabi[0..32]);
    assert_eq!(&out[32..40], &7u64.to_be_bytes());
    assert_eq!(&out[40..48], &42u64.to_be_bytes());
}

#[test]
fn other_client_states_pass_through_unchanged() {
    let bytes = vec![9u8; 17];
    assert_eq!(
        reencode_counterparty_client_state(&bytes, CounterpartyClientType::Other),
        Ok(bytes.clone())
    );
    assert_eq!(
        reencode_counterparty_consensus_state(&bytes, CounterpartyClientType::Other),
        Ok(bytes)
    );
}

#[test]
fn cometbls_reencoding_rejects_wrong_lengths() {
    assert_eq!(
        reencode_counterparty_client_state(&vec![0; 95], CounterpartyClientType::Cometbls),
        Err(CodecError::TrailingBytes)
    );
    assert_eq!(
        reencode_counterparty_consensus_state(&vec![0; 97], CounterpartyClientType::Cometbls),
        Err(CodecError::TrailingBytes)
    );
}

#[test]
fn cometbls_consensus_state_is_reencoded() {
    let mut ethabi = vec![0u8; 96];
    ethabi[24..32].copy_from_slice(&1_700_000_000u64.to_be_bytes());
    ethabi[32..64].copy_from_slice(&[0xAA; 32]);
    ethabi[64..96].copy_from_slice(&[0xBB; 32]);
    let out = reencode_counterparty_consensus_state(&ethabi, CounterpartyClientType::Cometbls)
        .expect("well-formed");
    assert_eq!(out.len(), 72);
    assert_eq!(&out[0..8], &1_700_000_000u64.to_be_bytes());
    assert_eq!(&out[8..40], &[0xAA; 32]);
    assert_eq!(&out[40..72], &[0xBB; 32]);
}

#[test]
fn module_announces_its_client_type() {
    let m = Module::new(Config { chain_spec: PresetBaseKind::Mainnet }).expect("infallible");
    let info = m.supported_interface();
    assert_eq!(info.client_type, ClientTypeKind::EthereumMainnet);
    assert_eq!(info.ibc_interface, IbcInterfaceKind::IbcGoV8Wasm);
    let info = Module::info(Config { chain_spec: PresetBaseKind::Minimal });
    assert_eq!(info.client_type, ClientTypeKind::EthereumMinimal);
    assert_eq!(Module::make_height(9), Height { revision_number: 0, revision_height: 9 });
}
