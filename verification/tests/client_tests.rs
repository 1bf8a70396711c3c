use layered_light_client::client::{migrate, ClientState, ClientStore, ConsensusState, NestedHeader, StoredConsensusState};
use layered_light_client::errors::Error;
use layered_light_client::header::{Header, L2Header};
use layered_light_client::height::Height;
use layered_light_client::merkle::{verify_membership, AccountProof, StorageProof};

fn keccak(input: &[u8]) -> Vec<u8> {
    let mut hasher = tiny_keccak::Keccak::v256();
    tiny_keccak::Hasher::update(&mut hasher, input);
    let mut out = [0u8; 32];
    tiny_keccak::Hasher::finalize(hasher, &mut out);
    out.to_vec()
}

fn cat(parts: &[&[u8]]) -> Vec<u8> {
    let mut r = Vec::new();
    for p in parts {
        r.extend_from_slice(p);
    }
    r
}

fn client_state() -> ClientState {
    ClientState {
        l2_chain_id: 7,
        l2_revision: 1000,
        l1_contract_address: vec![0xA1; 20],
        l2_ibc_contract_address: vec![0xA2; 20],
        l1_next_node_num_slot: vec![0x01; 32],
        l1_nodes_slot: vec![0x02; 32],
        latest_height: Height { revision_number: 0, revision_height: 100 },
        frozen_height: None,
    }
}

/// Builds a fully consistent header anchored at `l1_height`, together with
/// the anchor root its proofs chain to and the anchor contract's leaf.
/// `digest_override` fabricates a settlement chain that finalized a
/// different digest; `anchor_node` overrides the account proof's one node,
/// which lets a test chain the anchor root into another layer's tree.
fn build_fixture(
    cs: &ClientState,
    l1_height: Height,
    l2_height: u64,
    timestamp: u64,
    state_seed: u8,
    digest_override: Option<Vec<u8>>,
    anchor_node: Option<Vec<u8>>,
) -> (Vec<u8>, Vec<u8>, Header) {
    // Rollup side: the IBC account proof against the rollup's state root.
    let ibc_storage_root = vec![state_seed; 32];
    let ibc_sibling = vec![0x31; 32];
    let ibc_leaf = keccak(&cat(&[&cs.l2_ibc_contract_address, &ibc_storage_root]));
    let l2_state_root = keccak(&cat(&[&ibc_leaf, &ibc_sibling]));
    let l2_ibc_account_proof = AccountProof {
        storage_root: ibc_storage_root,
        proof: vec![cat(&[&[0u8], &ibc_sibling])],
    };
    let l2_header = L2Header { height: l2_height, state_root: l2_state_root.clone(), timestamp };

    // The digest the settlement chain finalized for node N.
    let digest = digest_override.unwrap_or_else(|| {
        keccak(&cat(&[&l2_height.to_be_bytes(), &l2_state_root, &timestamp.to_be_bytes()]))
    });

    // Settlement side: two storage slots under one storage root.
    let n: u64 = 3;
    let mut nn_value = vec![0u8; 24];
    nn_value.extend_from_slice(&n.to_be_bytes());
    let nodes_slot_key = keccak(&cat(&[&n.to_be_bytes(), &cs.l1_nodes_slot]));

    let nn_leaf = keccak(&cat(&[&cs.l1_next_node_num_slot, &nn_value]));
    let nodes_leaf = keccak(&cat(&[&nodes_slot_key, &digest]));
    let storage_root = keccak(&cat(&[&nn_leaf, &nodes_leaf]));
    let l1_next_node_num_slot_proof = StorageProof {
        key: cs.l1_next_node_num_slot.clone(),
        value: nn_value,
        proof: vec![cat(&[&[0u8], &nodes_leaf])],
    };
    let l1_nodes_slot_proof = StorageProof {
        key: nodes_slot_key,
        value: digest,
        proof: vec![cat(&[&[1u8], &nn_leaf])],
    };

    // The anchor contract's account proof against the anchor root.
    let acct_leaf = keccak(&cat(&[&cs.l1_contract_address, &storage_root]));
    let node = anchor_node.unwrap_or_else(|| cat(&[&[0u8], &[0x41; 32]]));
    let l1_root = if node[0] == 0 {
        keccak(&cat(&[&acct_leaf, &node[1..]]))
    } else {
        keccak(&cat(&[&node[1..], &acct_leaf]))
    };
    let l1_account_proof = AccountProof { storage_root, proof: vec![node] };

    let header = Header {
        l1_height,
        l1_account_proof,
        l2_ibc_account_proof,
        l1_next_node_num_slot_proof,
        l1_nodes_slot_proof,
        l2_header,
    };
    (l1_root, acct_leaf, header)
}

fn make_fixture(
    cs: &ClientState,
    l1_height: Height,
    l2_height: u64,
    timestamp: u64,
    state_seed: u8,
    digest_override: Option<Vec<u8>>,
) -> (Vec<u8>, Header) {
    let (root, _, header) =
        build_fixture(cs, l1_height, l2_height, timestamp, state_seed, digest_override, None);
    (root, header)
}

fn seeded_store(entries: Vec<(Height, Vec<u8>)>) -> ClientStore {
    let mut consensus_states: Vec<StoredConsensusState> = entries
        .into_iter()
        .map(|(height, root)| StoredConsensusState {
            height,
            state: ConsensusState {
                state_root: root,
                ibc_storage_root: vec![0u8; 32],
                timestamp: 1,
            },
        })
        .collect();
    consensus_states.sort_by_key(|e| (e.height.revision_number, e.height.revision_height));
    let mut client_state = client_state();
    if let Some(last) = consensus_states.last() {
        client_state.latest_height = last.height;
    }
    ClientStore { client_state, consensus_states }
}

#[test]
fn layered_update_records_rollup_state_root() {
    let cs = client_state();
    let anchor = Height { revision_number: 0, revision_height: 100 };
    let (l1_root, header) = make_fixture(&cs, anchor, 5, 111, 0x55, None);
    let mut store = seeded_store(vec![(anchor, l1_root)]);
    let new_height = store.update(&header).expect("update must succeed");
    assert_eq!(new_height, Height { revision_number: 1000, revision_height: 5 });
    let recorded = store.get_consensus_state(&new_height).expect("recorded");
    assert_eq!(recorded.state_root, header.l2_header.state_root);
    assert_eq!(recorded.ibc_storage_root, header.l2_ibc_account_proof.storage_root);
    assert_eq!(recorded.timestamp, 111);
    assert_eq!(store.client_state.latest_height, new_height);
}

#[test]
fn layered_update_digest_flip_fails_at_digest_comparison() {
    let cs = client_state();
    let anchor = Height { revision_number: 0, revision_height: 100 };
    // First compute the true digest, then fabricate a settlement chain that
    // finalized the digest with one bit flipped.
    let (_, true_header) = make_fixture(&cs, anchor, 5, 111, 0x55, None);
    let mut flipped = true_header.l1_nodes_slot_proof.value.clone();
    flipped[0] ^= 1;
    let (l1_root, header) = make_fixture(&cs, anchor, 5, 111, 0x55, Some(flipped.clone()));
    let mut store = seeded_store(vec![(anchor, l1_root)]);
    match store.update(&header) {
        Err(Error::CommitmentDigestMismatch { expected, computed }) => {
            assert_eq!(expected, flipped);
            assert_eq!(computed, true_header.l1_nodes_slot_proof.value);
        },
        other => panic!("expected digest mismatch, got {:?}", other),
    }
    // A failed update leaves the store unchanged.
    assert_eq!(store.consensus_states.len(), 1);
    assert_eq!(store.client_state.frozen_height, None);
}

#[test]
fn three_updates_retain_all_heights_and_advance_latest() {
    let cs = client_state();
    let anchors: Vec<Height> = (0..3)
        .map(|i| Height { revision_number: 0, revision_height: 100 + i })
        .collect();
    let fixtures: Vec<(Vec<u8>, Header)> = (0..3)
        .map(|i| make_fixture(&cs, anchors[i], 5 + i as u64, 111 + i as u64, 0x50 + i as u8, None))
        .collect();
    let mut store = seeded_store(
        fixtures.iter().zip(&anchors).map(|((r, _), h)| (*h, r.clone())).collect(),
    );
    for (_, header) in &fixtures {
        store.update(header).expect("update must succeed");
    }
    for i in 0..3u64 {
        let h = Height { revision_number: 1000, revision_height: 5 + i };
        assert!(store.get_consensus_state(&h).is_ok());
    }
    assert_eq!(
        store.client_state.latest_height,
        Height { revision_number: 1000, revision_height: 7 }
    );
}

#[test]
fn reapplying_the_same_header_is_a_no_op() {
    let cs = client_state();
    let anchor = Height { revision_number: 0, revision_height: 100 };
    let (l1_root, header) = make_fixture(&cs, anchor, 5, 111, 0x55, None);
    let mut store = seeded_store(vec![(anchor, l1_root)]);
    let first = store.update(&header).expect("first update");
    let len_after_first = store.consensus_states.len();
    let second = store.update(&header).expect("reapply must succeed");
    assert_eq!(first, second);
    assert_eq!(store.consensus_states.len(), len_after_first);
    let recorded = store.get_consensus_state(&first).expect("recorded");
    assert_eq!(recorded.state_root, header.l2_header.state_root);
}

#[test]
fn conflicting_header_freezes_the_client() {
    let cs = client_state();
    let anchor_a = Height { revision_number: 0, revision_height: 100 };
    let anchor_b = Height { revision_number: 0, revision_height: 101 };
    let (root_a, header_a) = make_fixture(&cs, anchor_a, 5, 111, 0x55, None);
    let (root_b, header_b) = make_fixture(&cs, anchor_b, 5, 111, 0x66, None);
    let mut store = seeded_store(vec![(anchor_a, root_a), (anchor_b, root_b)]);

    store.update(&header_a).expect("first header applies");
    let conflict_height = Height { revision_number: 1000, revision_height: 5 };
    match store.update(&header_b) {
        Err(Error::Misbehaviour(h)) => assert_eq!(h, conflict_height),
        other => panic!("expected misbehaviour, got {:?}", other),
    }
    assert_eq!(store.client_state.frozen_height, Some(conflict_height));

    // Frozen: any further update fails, regardless of validity.
    let (root_c, header_c) = make_fixture(&cs, anchor_b, 6, 112, 0x77, None);
    let _ = root_c;
    match store.update(&header_c) {
        Err(Error::Frozen(h)) => assert_eq!(h, conflict_height),
        other => panic!("expected frozen error, got {:?}", other),
    }
}

#[test]
fn update_without_anchor_consensus_state_fails_fast() {
    let cs = client_state();
    let anchor = Height { revision_number: 0, revision_height: 100 };
    let missing = Height { revision_number: 0, revision_height: 999 };
    let (l1_root, mut header) = make_fixture(&cs, anchor, 5, 111, 0x55, None);
    header.l1_height = missing;
    let mut store = seeded_store(vec![(anchor, l1_root)]);
    assert_eq!(store.update(&header), Err(Error::ConsensusStateNotFound(missing)));
    match store.get_consensus_state(&missing) {
        Err(Error::ConsensusStateNotFound(h)) => assert_eq!(h, missing),
        other => panic!("expected not-found, got {:?}", other),
    }
}

#[test]
fn migration_replaces_a_frozen_client() {
    let mut subject = client_state();
    subject.frozen_height = Some(Height { revision_number: 1000, revision_height: 5 });
    let mut substitute = client_state();
    substitute.latest_height = Height { revision_number: 1000, revision_height: 9 };
    assert_eq!(migrate(&mut subject, &substitute), Ok(()));
    assert_eq!(subject.frozen_height, None);
    assert_eq!(subject.latest_height, substitute.latest_height);
}

#[test]
fn migration_rejects_a_frozen_substitute() {
    let mut subject = client_state();
    let mut substitute = client_state();
    substitute.frozen_height = Some(Height { revision_number: 1000, revision_height: 5 });
    assert_eq!(migrate(&mut subject, &substitute), Err(Error::SubstituteClientFrozen));
}

#[test]
fn migration_rejects_changed_fields() {
    let mut subject = client_state();
    subject.frozen_height = Some(Height { revision_number: 1000, revision_height: 5 });
    let before = subject.clone();
    let mut substitute = client_state();
    substitute.l2_chain_id = 8;
    assert_eq!(migrate(&mut subject, &substitute), Err(Error::MigrateFieldsChanged));
    assert_eq!(subject, before);
}

#[test]
fn membership_rejects_an_empty_path() {
    let proof = StorageProof { key: vec![], value: vec![9; 32], proof: vec![vec![0; 33]] };
    assert_eq!(
        verify_membership(&vec![0; 32], &vec![], &vec![9; 32], &proof),
        Err(Error::EmptyIbcPath)
    );
}

#[test]
fn nested_header_flattens_innermost_first() {
    let cs = client_state();
    let anchor = Height { revision_number: 0, revision_height: 100 };
    let (_, inner) = make_fixture(&cs, anchor, 5, 111, 0x55, None);
    let (_, outer) = make_fixture(&cs, anchor, 6, 112, 0x66, None);
    let nested = NestedHeader::Over(outer.clone(), Box::new(NestedHeader::Base(inner.clone())));
    let flat = nested.flatten().expect("within the bound");
    assert_eq!(flat, vec![inner, outer]);
}

#[test]
fn nested_header_deeper_than_the_bound_is_rejected() {
    let cs = client_state();
    let anchor = Height { revision_number: 0, revision_height: 100 };
    let (_, base) = make_fixture(&cs, anchor, 5, 111, 0x55, None);
    let mut nested = NestedHeader::Base(base);
    for i in 0..8u64 {
        let (_, h) = make_fixture(&cs, anchor, 6 + i, 112, 0x66, None);
        nested = NestedHeader::Over(h, Box::new(nested));
    }
    match nested.flatten() {
        Err(Error::HeaderTooDeep { depth, max }) => {
            assert_eq!(depth, 9);
            assert_eq!(max, 8);
        },
        other => panic!("expected depth error, got {:?}", other),
    }
}

#[test]
fn three_layer_composition_delegates_through_the_middle_client() {
    // The middle client verifies the rollup-over-settlement link; its record
    // is handed to the outer client, which verifies its own rollup against
    // the middle layer's state root.
    let cs_mid = client_state();
    let cs_out = ClientState {
        l2_chain_id: 9,
        l2_revision: 2000,
        l1_contract_address: vec![0xB1; 20],
        l2_ibc_contract_address: vec![0xB2; 20],
        l1_next_node_num_slot: vec![0x03; 32],
        l1_nodes_slot: vec![0x04; 32],
        latest_height: Height { revision_number: 0, revision_height: 0 },
        frozen_height: None,
    };
    let h_mid = Height { revision_number: 1000, revision_height: 5 };

    // The outer layer's anchor-contract leaf does not depend on its anchor
    // proof node, so it can be computed first and folded into the middle
    // layer's tree as the sibling of the IBC leaf.
    let (_, acct_leaf_out, _) =
        build_fixture(&cs_out, h_mid, 11, 222, 0x77, None, None);
    let ibc_storage_root_mid = vec![0x55u8; 32];
    let ibc_leaf_mid = keccak(&cat(&[&cs_mid.l2_ibc_contract_address, &ibc_storage_root_mid]));
    let sr2_mid = keccak(&cat(&[&ibc_leaf_mid, &acct_leaf_out]));

    // Middle header whose rollup state root is exactly sr2_mid.
    let anchor = Height { revision_number: 0, revision_height: 100 };
    let digest_mid = keccak(&cat(&[&5u64.to_be_bytes(), &sr2_mid, &111u64.to_be_bytes()]));
    let n: u64 = 3;
    let mut nn_value = vec![0u8; 24];
    nn_value.extend_from_slice(&n.to_be_bytes());
    let nodes_slot_key = keccak(&cat(&[&n.to_be_bytes(), &cs_mid.l1_nodes_slot]));
    let nn_leaf = keccak(&cat(&[&cs_mid.l1_next_node_num_slot, &nn_value]));
    let nodes_leaf = keccak(&cat(&[&nodes_slot_key, &digest_mid]));
    let storage_root_mid = keccak(&cat(&[&nn_leaf, &nodes_leaf]));
    let acct_leaf_mid = keccak(&cat(&[&cs_mid.l1_contract_address, &storage_root_mid]));
    let acct_sibling = vec![0x41u8; 32];
    let l1_root_mid = keccak(&cat(&[&acct_leaf_mid, &acct_sibling]));
    let header_mid = Header {
        l1_height: anchor,
        l1_account_proof: AccountProof {
            storage_root: storage_root_mid,
            proof: vec![cat(&[&[0u8], &acct_sibling])],
        },
        l2_ibc_account_proof: AccountProof {
            storage_root: ibc_storage_root_mid,
            proof: vec![cat(&[&[0u8], &acct_leaf_out])],
        },
        l1_next_node_num_slot_proof: StorageProof {
            key: cs_mid.l1_next_node_num_slot.clone(),
            value: nn_value,
            proof: vec![cat(&[&[0u8], &nodes_leaf])],
        },
        l1_nodes_slot_proof: StorageProof {
            key: nodes_slot_key,
            value: digest_mid,
            proof: vec![cat(&[&[1u8], &nn_leaf])],
        },
        l2_header: L2Header { height: 5, state_root: sr2_mid.clone(), timestamp: 111 },
    };

    // Outer header anchored at the middle layer's recorded height, its
    // account proof chaining into sr2_mid beside the middle IBC leaf.
    let (anchor_root_out, _, header_out) = build_fixture(
        &cs_out,
        h_mid,
        11,
        222,
        0x77,
        None,
        Some(cat(&[&[1u8], &ibc_leaf_mid])),
    );
    assert_eq!(anchor_root_out, sr2_mid);

    // Middle client: verify and record.
    let mut mid = ClientStore {
        client_state: cs_mid,
        consensus_states: vec![StoredConsensusState {
            height: anchor,
            state: ConsensusState {
                state_root: l1_root_mid,
                ibc_storage_root: vec![0; 32],
                timestamp: 1,
            },
        }],
    };
    assert_eq!(mid.update(&header_mid), Ok(h_mid));
    let recorded = mid.get_consensus_state(&h_mid).expect("recorded").clone();
    assert_eq!(recorded.state_root, sr2_mid);

    // Outer client: mirror the delegated record, then verify its own layer.
    let mut outer = ClientStore { client_state: cs_out, consensus_states: vec![] };
    assert_eq!(outer.record_consensus_state(h_mid, recorded), Ok(()));
    let h_out = outer.update(&header_out).expect("outer update must succeed");
    assert_eq!(h_out, Height { revision_number: 2000, revision_height: 11 });
    let out_recorded = outer.get_consensus_state(&h_out).expect("recorded");
    assert_eq!(out_recorded.state_root, header_out.l2_header.state_root);
}

#[test]
fn recording_a_conflicting_delegated_state_is_misbehaviour() {
    let anchor = Height { revision_number: 0, revision_height: 100 };
    let mut store = seeded_store(vec![(anchor, vec![7; 32])]);
    let same = ConsensusState {
        state_root: vec![7; 32],
        ibc_storage_root: vec![0; 32],
        timestamp: 1,
    };
    assert_eq!(store.record_consensus_state(anchor, same), Ok(()));
    let different = ConsensusState {
        state_root: vec![8; 32],
        ibc_storage_root: vec![0; 32],
        timestamp: 1,
    };
    assert_eq!(
        store.record_consensus_state(anchor, different),
        Err(Error::Misbehaviour(anchor))
    );
}
