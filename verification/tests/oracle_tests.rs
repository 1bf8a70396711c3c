use layered_light_client::errors::HostError;
use layered_light_client::oracle::{
    verify_commit, SignatureOracle, SyncError, Validator, VerificationContext,
};
use layered_light_client::vote::{
    encode_canonical_vote, BoundedI64, CanonicalBlockId, CanonicalPartSetHeader, CanonicalVote,
    SignedMsgType,
};

struct AcceptOracle;

impl SignatureOracle for AcceptOracle {
    fn query_fast_aggregate_verify(
        &self,
        _public_keys: &Vec<Vec<u8>>,
        _msg: &Vec<u8>,
        _signature: &Vec<u8>,
    ) -> Result<bool, HostError> {
        Ok(true)
    }
}

struct RejectOracle;

impl SignatureOracle for RejectOracle {
    fn query_fast_aggregate_verify(
        &self,
        _public_keys: &Vec<Vec<u8>>,
        _msg: &Vec<u8>,
        _signature: &Vec<u8>,
    ) -> Result<bool, HostError> {
        Ok(false)
    }
}

struct FailingOracle;

impl SignatureOracle for FailingOracle {
    fn query_fast_aggregate_verify(
        &self,
        _public_keys: &Vec<Vec<u8>>,
        _msg: &Vec<u8>,
        _signature: &Vec<u8>,
    ) -> Result<bool, HostError> {
        Err(HostError { code: 7 })
    }
}

fn keys() -> Vec<Vec<u8>> {
    vec![vec![1; 48], vec![2; 48]]
}

#[test]
fn accepted_signature_passes() {
    let ctx = VerificationContext { deps: AcceptOracle };
    assert_eq!(ctx.fast_aggregate_verify(keys(), b"msg".to_vec(), vec![9; 96]), Ok(()));
}

#[test]
fn rejected_signature_carries_the_exact_inputs() {
    let ctx = VerificationContext { deps: RejectOracle };
    match ctx.fast_aggregate_verify(keys(), b"msg".to_vec(), vec![9; 96]) {
        Err(SyncError::InvalidSignature(inv)) => {
            assert_eq!(inv.public_keys, keys());
            assert_eq!(inv.msg, b"msg".to_vec());
            assert_eq!(inv.signature, vec![9; 96]);
        },
        other => panic!("expected invalid signature, got {:?}", other),
    }
}

#[test]
fn host_failure_is_distinct_from_rejection() {
    let ctx = VerificationContext { deps: FailingOracle };
    match ctx.fast_aggregate_verify(keys(), b"msg".to_vec(), vec![9; 96]) {
        Err(SyncError::CustomQuery(h)) => assert_eq!(h, HostError { code: 7 }),
        other => panic!("expected host failure, got {:?}", other),
    }
}

fn vote() -> CanonicalVote {
    CanonicalVote {
        ty: SignedMsgType::Precommit,
        height: BoundedI64::new(10).unwrap(),
        round: BoundedI64::new(0).unwrap(),
        block_id: CanonicalBlockId {
            hash: vec![0xAA; 32],
            part_set_header: CanonicalPartSetHeader { total: 1, hash: vec![0xBB; 32] },
        },
        chain_id: b"union-1".to_vec(),
    }
}

fn validators() -> Vec<Validator> {
    vec![
        Validator { pubkey: vec![1; 48], power: 5 },
        Validator { pubkey: vec![2; 48], power: 5 },
        Validator { pubkey: vec![3; 48], power: 5 },
    ]
}

#[test]
fn commit_below_two_thirds_is_rejected_exactly() {
    let ctx = VerificationContext { deps: AcceptOracle };
    // 10 of 15: 3*10 == 2*15, not strictly more than two thirds.
    match verify_commit(&ctx, &validators(), &vec![true, true, false], &vote(), vec![9; 96]) {
        Err(SyncError::InsufficientVotingPower { signed, total }) => {
            assert_eq!(signed, 10);
            assert_eq!(total, 15);
        },
        other => panic!("expected insufficient power, got {:?}", other),
    }
}

#[test]
fn commit_above_two_thirds_passes_with_an_accepting_host() {
    let ctx = VerificationContext { deps: AcceptOracle };
    assert_eq!(
        verify_commit(&ctx, &validators(), &vec![true, true, true], &vote(), vec![9; 96]),
        Ok(())
    );
}

#[test]
fn commit_rejection_carries_only_the_signers_keys_in_order() {
    let ctx = VerificationContext { deps: RejectOracle };
    let validators = vec![
        Validator { pubkey: vec![1; 48], power: 5 },
        Validator { pubkey: vec![2; 48], power: 1 },
        Validator { pubkey: vec![3; 48], power: 5 },
    ];
    // 10 of 11 signed: enough power, so the aggregate is queried and the
    // rejection must carry exactly the two signers' keys, in order.
    match verify_commit(&ctx, &validators, &vec![true, false, true], &vote(), vec![9; 96]) {
        Err(SyncError::InvalidSignature(inv)) => {
            assert_eq!(inv.public_keys, vec![vec![1; 48], vec![3; 48]]);
        },
        other => panic!("expected invalid signature, got {:?}", other),
    }
}

#[test]
fn commit_signature_rejection_carries_the_canonical_bytes() {
    let ctx = VerificationContext { deps: RejectOracle };
    match verify_commit(&ctx, &validators(), &vec![true, true, true], &vote(), vec![9; 96]) {
        Err(SyncError::InvalidSignature(inv)) => {
            assert_eq!(inv.msg, encode_canonical_vote(&vote()));
            assert_eq!(inv.signature, vec![9; 96]);
            assert_eq!(inv.public_keys, vec![vec![1; 48], vec![2; 48], vec![3; 48]]);
        },
        other => panic!("expected invalid signature, got {:?}", other),
    }
}
