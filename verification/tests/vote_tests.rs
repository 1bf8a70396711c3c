use layered_light_client::vote::{
    encode_canonical_vote, BoundedI64, BoundedIntError, CanonicalBlockId, CanonicalPartSetHeader,
    CanonicalVote, RawCanonicalVote, SignedMsgType,
};

fn sample_vote(height: i64, round: i64) -> CanonicalVote {
    CanonicalVote {
        ty: SignedMsgType::Precommit,
        height: BoundedI64::new(height).unwrap(),
        round: BoundedI64::new(round).unwrap(),
        block_id: CanonicalBlockId {
            hash: vec![0xAB, 0xCD],
            part_set_header: CanonicalPartSetHeader { total: 1, hash: vec![0xEF] },
        },
        chain_id: b"union-1".to_vec(),
    }
}

#[test]
fn zero_height_and_round_encode_zero_filled_fixed_width() {
    let vote = sample_vote(0, 0);
    let bytes = encode_canonical_vote(&vote);
    assert_eq!(bytes[0], 2);
    for i in 1..17 {
        assert_eq!(bytes[i], 0, "byte {} must be zero", i);
    }
}

#[test]
fn negative_height_rejected_at_construction() {
    assert_eq!(BoundedI64::new(-1), Err(BoundedIntError::Negative));
    assert_eq!(BoundedI64::new(-(1i64 << 40)), Err(BoundedIntError::Negative));
    assert_eq!(BoundedI64::new(0).unwrap().value, 0);
    assert_eq!(BoundedI64::new(i64::MAX).unwrap().value, i64::MAX);
}

#[test]
fn encoding_is_exact_and_fixed_width() {
    let vote = sample_vote(1, 258);
    let bytes = encode_canonical_vote(&vote);
    let mut expected: Vec<u8> = Vec::new();
    expected.push(2); // precommit
    expected.extend_from_slice(&1u64.to_be_bytes());
    expected.extend_from_slice(&258u64.to_be_bytes());
    expected.extend_from_slice(&2u64.to_be_bytes()); // block hash length
    expected.extend_from_slice(&[0xAB, 0xCD]);
    expected.extend_from_slice(&1u32.to_be_bytes()); // part count
    expected.extend_from_slice(&1u64.to_be_bytes()); // part hash length
    expected.extend_from_slice(&[0xEF]);
    expected.extend_from_slice(&7u64.to_be_bytes()); // chain id length
    expected.extend_from_slice(b"union-1");
    assert_eq!(bytes, expected);
}

#[test]
fn encoding_is_deterministic_across_calls() {
    let vote = sample_vote(42, 7);
    assert_eq!(encode_canonical_vote(&vote), encode_canonical_vote(&vote));
}

#[test]
fn raw_vote_populates_every_field() {
    let vote = sample_vote(5, 6);
    let raw = RawCanonicalVote::from(vote.clone());
    assert_eq!(raw.ty, 2);
    assert_eq!(raw.height, 5);
    assert_eq!(raw.round, 6);
    assert_eq!(raw.block_id, Some(vote.block_id));
    assert_eq!(raw.chain_id, vote.chain_id);
}

#[test]
fn message_kinds_encode_to_their_bytes() {
    assert_eq!(SignedMsgType::Unknown.as_byte(), 0);
    assert_eq!(SignedMsgType::Prevote.as_byte(), 1);
    assert_eq!(SignedMsgType::Precommit.as_byte(), 2);
    assert_eq!(SignedMsgType::Proposal.as_byte(), 32);
}
