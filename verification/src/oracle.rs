//! The signature oracle adapter: aggregate-signature verification is
//! delegated to a host capability, injected as a trait the core depends on
//! but does not implement. A host answer of `false` is an invalid signature
//! carrying the exact inputs; a host failure is a distinct error, so callers
//! can tell "signature rejected" from "oracle unavailable".

use vstd::prelude::*;
use crate::errors::HostError;
use crate::vote::{encode_canonical_vote, encode_vote_spec, CanonicalVote};

verus! {

/// The inputs a rejected signature carries back for diagnostics.
#[derive(Debug, Clone, PartialEq, Eq)]
pub struct InvalidSignature {
    pub public_keys: Vec<Vec<u8>>,
    pub msg: Vec<u8>,
    pub signature: Vec<u8>,
}

/// Failures of signature verification.
#[derive(Debug, Clone, PartialEq, Eq)]
pub enum SyncError {
    /// The host capability answered `false` for these exact inputs.
    InvalidSignature(InvalidSignature),
    /// The host capability itself could not be queried.
    CustomQuery(HostError),
    /// The signers carry too little voting power for a commit.
    InsufficientVotingPower { signed: u128, total: u128 },
}

/// The host capability. Implementations live outside the library (a chain
/// host, or a test double); nothing is promised of the answer.
pub trait SignatureOracle {
    fn query_fast_aggregate_verify(
        &self,
        public_keys: &Vec<Vec<u8>>,
        msg: &Vec<u8>,
        signature: &Vec<u8>,
    ) -> Result<bool, HostError>;
}

/// Maps a host answer to the caller's result: `true` is acceptance, `false`
/// is an invalid signature carrying the inputs unchanged, and a host failure
/// stays a distinct host failure.
pub fn interpret_verification_outcome(
    outcome: Result<bool, HostError>,
    public_keys: Vec<Vec<u8>>,
    msg: Vec<u8>,
    signature: Vec<u8>,
) -> (r: Result<(), SyncError>)
    ensures
        (r is Ok) <==> outcome == Ok::<bool, HostError>(true),
        (outcome == Ok::<bool, HostError>(false)) ==> (r matches Err(e)
            && e matches SyncError::InvalidSignature(inv) && inv.public_keys == public_keys
            && inv.msg == msg && inv.signature == signature),
        (outcome is Err) ==> r == Err::<(), SyncError>(SyncError::CustomQuery(outcome->Err_0)),
        r matches Err(e) ==> (e matches SyncError::InvalidSignature(inv) ==> (inv.public_keys == public_keys && inv.msg == msg && inv.signature == signature)),
        r matches Err(e) ==> (e is InvalidSignature || e is CustomQuery),
{
    match outcome {
        Ok(true) => Ok(()),
        Ok(false) => Err(
            SyncError::InvalidSignature(InvalidSignature { public_keys, msg, signature }),
        ),
        Err(h) => Err(SyncError::CustomQuery(h)),
    }
}

/// The adapter around an injected host capability.
pub struct VerificationContext<O> {
    pub deps: O,
}

impl<O: SignatureOracle> VerificationContext<O> {
    /// Forwards the exact public keys, message and signature to the host,
    /// and interprets whatever comes back. A rejected signature carries the
    /// inputs unchanged; a host failure stays distinct.
    pub fn fast_aggregate_verify(
        &self,
        public_keys: Vec<Vec<u8>>,
        msg: Vec<u8>,
        signature: Vec<u8>,
    ) -> (r: Result<(), SyncError>)
        ensures
            r matches Err(e) ==> (e matches SyncError::InvalidSignature(inv) ==> (inv.public_keys == public_keys && inv.msg == msg && inv.signature == signature)),
            r matches Err(e) ==> (e is InvalidSignature || e is CustomQuery),
    {
        let outcome = self.deps.query_fast_aggregate_verify(&public_keys, &msg, &signature);
        interpret_verification_outcome(outcome, public_keys, msg, signature)
    }
}

/// A validator: its public key and its voting power.
#[derive(Debug, Clone, PartialEq, Eq)]
pub struct Validator {
    pub pubkey: Vec<u8>,
    pub power: u64,
}

/// The summed power of all validators.
pub open spec fn total_power(s: Seq<Validator>) -> int
    decreases s.len(),
{
    if s.len() == 0 {
        0
    } else {
        total_power(s.drop_last()) + s.last().power
    }
}

/// The summed power of the validators the bitmap marks as signers.
pub open spec fn signed_power(s: Seq<Validator>, signers: Seq<bool>) -> int
    decreases s.len(),
{
    if s.len() == 0 {
        0
    } else {
        signed_power(s.drop_last(), signers.take(s.len() - 1)) + (if signers[s.len() - 1] {
            s.last().power as int
        } else {
            0
        })
    }
}

proof fn lemma_power_bounds(s: Seq<Validator>, signers: Seq<bool>)
    requires
        signers.len() >= s.len(),
    ensures
        0 <= signed_power(s, signers.take(s.len() as int)) <= total_power(s),
        total_power(s) <= s.len() * 0xffff_ffff_ffff_ffff,
    decreases s.len(),
{
    if s.len() > 0 {
        lemma_power_bounds(s.drop_last(), signers.take(s.len() - 1));
        assert(signers.take(s.len() - 1).take(s.len() - 1) =~= signers.take(s.len() - 1));
        assert(signers.take(s.len() as int)[s.len() - 1] == signers[s.len() - 1]);
        assert(signers.take(s.len() as int).take(s.len() - 1) =~= signers.take(s.len() - 1));
        assert((s.len() - 1) * 0xffff_ffff_ffff_ffff + 0xffff_ffff_ffff_ffff == s.len()
            * 0xffff_ffff_ffff_ffff) by (nonlinear_arith);
    }
}

/// The views of a sequence of key vectors.
pub open spec fn key_views(ks: Seq<Vec<u8>>) -> Seq<Seq<u8>> {
    ks.map_values(|k: Vec<u8>| k@)
}

/// The public keys of the validators the bitmap marks as signers, in
/// validator order.
pub open spec fn signer_keys(s: Seq<Validator>, signers: Seq<bool>) -> Seq<Seq<u8>>
    decreases s.len(),
{
    if s.len() == 0 {
        Seq::empty()
    } else if signers[s.len() - 1] {
        signer_keys(s.drop_last(), signers.take(s.len() - 1)).push(s.last().pubkey@)
    } else {
        signer_keys(s.drop_last(), signers.take(s.len() - 1))
    }
}

/// A commit carries enough power exactly when the signers hold strictly more
/// than two thirds of the total voting power.
pub open spec fn two_thirds_met(s: Seq<Validator>, signers: Seq<bool>) -> bool {
    3 * signed_power(s, signers.take(s.len() as int)) > 2 * total_power(s)
}

/// Verifies a commit over the canonical vote: the signers must hold more
/// than two thirds of the voting power (checked first, exactly), and the
/// aggregate of their keys must sign the canonical vote bytes according to
/// the host capability. A rejected aggregate carries the signer keys and
/// the canonical bytes unchanged.
pub fn verify_commit<O: SignatureOracle>(
    ctx: &VerificationContext<O>,
    validators: &Vec<Validator>,
    signers: &Vec<bool>,
    vote: &CanonicalVote,
    signature: Vec<u8>,
) -> (r: Result<(), SyncError>)
    requires
        signers@.len() == validators@.len(),
        validators@.len() <= 0xffff_ffff,
        vote.height.wf(),
        vote.round.wf(),
    ensures
        !two_thirds_met(validators@, signers@) ==> (r matches Err(e)
            && e matches SyncError::InsufficientVotingPower { signed, total }
            && signed == signed_power(validators@, signers@.take(validators@.len() as int))
            && total == total_power(validators@)),
        (r is Ok) ==> two_thirds_met(validators@, signers@),
        r matches Err(e) ==> (e matches SyncError::InsufficientVotingPower { .. } ==> !two_thirds_met(validators@, signers@)),
        r matches Err(e) ==> (e matches SyncError::InvalidSignature(inv) ==> (inv.msg@ == encode_vote_spec(*vote) && inv.signature == signature && key_views(inv.public_keys@) == signer_keys(validators@, signers@))),
{
    let n = validators.len();
    let mut total: u128 = 0;
    let mut signed: u128 = 0;
    let mut i: usize = 0;
    proof {
        lemma_power_bounds(validators@.subrange(0, 0), signers@.take(0));
        assert(validators@.subrange(0, 0) =~= Seq::<Validator>::empty());
    }
    while i < n
        invariant
            n == validators@.len(),
            signers@.len() == n,
            0 <= i <= n,
            total == total_power(validators@.subrange(0, i as int)),
            signed == signed_power(validators@.subrange(0, i as int), signers@.take(i as int)),
            0 <= signed <= total,
            total <= i * 0xffff_ffff_ffff_ffff,
        decreases n - i,
    {
        proof {
            let pre = validators@.subrange(0, i as int);
            let cur = validators@.subrange(0, i + 1);
            assert(cur.drop_last() =~= pre);
            assert(cur.last() == validators@[i as int]);
            assert(signers@.take(i + 1).take(i as int) =~= signers@.take(i as int));
            assert(signers@.take(i + 1)[i as int] == signers@[i as int]);
            assert((i + 1) * 0xffff_ffff_ffff_ffff == i * 0xffff_ffff_ffff_ffff
                + 0xffff_ffff_ffff_ffff) by (nonlinear_arith);
        }
        total = total + (validators[i].power as u128);
        if signers[i] {
            signed = signed + (validators[i].power as u128);
        }
        i = i + 1;
    }
    proof {
        assert(validators@.subrange(0, n as int) =~= validators@);
        assert(n * 0xffff_ffff_ffff_ffff <= 0xffff_ffff * 0xffff_ffff_ffff_ffff)
            by (nonlinear_arith)
            requires
                n <= 0xffff_ffff,
        ;
    }
    if !(3 * signed > 2 * total) {
        return Err(SyncError::InsufficientVotingPower { signed, total });
    }
    let mut keys: Vec<Vec<u8>> = Vec::new();
    let mut j: usize = 0;
    proof {
        assert(validators@.subrange(0, 0) =~= Seq::<Validator>::empty());
        assert(key_views(keys@) =~= signer_keys(validators@.subrange(0, 0), signers@.take(0)));
    }
    while j < n
        invariant
            n == validators@.len(),
            signers@.len() == n,
            0 <= j <= n,
            key_views(keys@) == signer_keys(validators@.subrange(0, j as int), signers@.take(j as int)),
        decreases n - j,
    {
        if signers[j] {
            keys.push(validators[j].pubkey.clone());
        }
        j = j + 1;
        proof {
            let pre = validators@.subrange(0, j - 1);
            let cur = validators@.subrange(0, j as int);
            assert(cur.drop_last() =~= pre);
            assert(cur.last() == validators@[j - 1]);
            assert(signers@.take(j as int).take(j - 1) =~= signers@.take(j - 1));
            assert(signers@.take(j as int)[j - 1] == signers@[j - 1]);
            assert(key_views(keys@) =~= signer_keys(cur, signers@.take(j as int)));
        }
    }
    proof {
        assert(validators@.subrange(0, n as int) =~= validators@);
        assert(signers@.take(n as int) =~= signers@);
    }
    let msg = encode_canonical_vote(vote);
    ctx.fast_aggregate_verify(keys, msg, signature)
}

} // verus!
