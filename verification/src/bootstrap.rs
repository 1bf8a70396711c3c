//! Consensus bootstrap: deriving a new client's trust parameters from the
//! host chain's staking parameters and the current committed header. All
//! arithmetic is integer arithmetic on (seconds, nanoseconds) pairs, so the
//! result is identical bit for bit on every validating node.

use vstd::prelude::*;
use vstd::arithmetic::div_mod::{
    lemma_div_is_ordered, lemma_div_multiples_vanish_fancy, lemma_fundamental_div_mod,
};
use crate::bytes::subrange_vec;
use crate::height::Height;

verus! {

/// A non-negative span of time: whole seconds plus a sub-second remainder.
#[derive(Clone, Copy, Debug, PartialEq, Eq, Structural)]
pub struct Duration {
    pub seconds: u64,
    pub nanos: u32,
}

impl Duration {
    /// The sub-second part stays below one second.
    pub open spec fn wf(self) -> bool {
        self.nanos < 1_000_000_000
    }

    /// The span in nanoseconds.
    pub open spec fn as_nanos(self) -> int {
        self.seconds * 1_000_000_000 + self.nanos
    }

    pub fn new(seconds: u64, nanos: u32) -> (r: Duration)
        requires
            nanos < 1_000_000_000,
        ensures
            r.seconds == seconds,
            r.nanos == nanos,
            r.wf(),
    {
        Duration { seconds, nanos }
    }
}

/// Exactly 85 percent of the unbonding period, at the same sub-second
/// precision: the span in nanoseconds is multiplied by 85 and divided by 100
/// in integer arithmetic. The result is strictly shorter than the unbonding
/// period whenever that period is non-zero, so misbehaviour evidence stays
/// punishable before stake unlocks.
pub fn trusting_period_from(unbonding: &Duration) -> (r: Duration)
    requires
        unbonding.wf(),
    ensures
        r.wf(),
        r.as_nanos() == unbonding.as_nanos() * 85 / 100,
{
    let total: u128 = (unbonding.seconds as u128) * 1_000_000_000 + (unbonding.nanos as u128);
    let scaled: u128 = total * 85 / 100;
    proof {
        assert(total == unbonding.as_nanos());
        lemma_div_is_ordered((total * 85) as int, (total * 100) as int, 100);
        lemma_div_multiples_vanish_fancy(total as int, 0, 100);
        assert(total * 100 / 100 == total);
        assert(scaled <= total);
        lemma_fundamental_div_mod(total as int, 1_000_000_000);
        assert(total / 1_000_000_000 == unbonding.seconds) by {
            lemma_div_multiples_vanish_fancy(
                unbonding.seconds as int,
                unbonding.nanos as int,
                1_000_000_000,
            );
        }
        lemma_div_is_ordered(scaled as int, total as int, 1_000_000_000);
    }
    let seconds: u64 = (scaled / 1_000_000_000) as u64;
    let nanos: u32 = (scaled % 1_000_000_000) as u32;
    proof {
        lemma_fundamental_div_mod(scaled as int, 1_000_000_000);
    }
    Duration { seconds, nanos }
}

/// Whether a consensus state recorded at `timestamp_nanos` has outlived the
/// trusting period at the supplied current time. The current time is an
/// explicit input: nothing here reads a clock.
pub fn is_expired(timestamp_nanos: u64, trusting_period: &Duration, now_nanos: u64) -> (r: bool)
    requires
        trusting_period.wf(),
    ensures
        r == (now_nanos > timestamp_nanos + trusting_period.as_nanos()),
{
    let deadline: u128 = (timestamp_nanos as u128) + (trusting_period.seconds as u128)
        * 1_000_000_000 + (trusting_period.nanos as u128);
    (now_nanos as u128) > deadline
}

/// The scaled span never reaches the span it was scaled from.
pub proof fn lemma_trusting_period_strictly_shorter(d: Duration)
    requires
        d.wf(),
        d.as_nanos() > 0,
    ensures
        d.as_nanos() * 85 / 100 < d.as_nanos(),
{
    let x = d.as_nanos();
    assert(x * 85 <= (x - 1) * 100 + 85);
    lemma_div_is_ordered(x * 85, (x - 1) * 100 + 85, 100);
    lemma_div_multiples_vanish_fancy(x - 1, 85, 100);
}

/// A trust fraction: the share of voting power assumed honest.
#[derive(Clone, Copy, Debug, PartialEq, Eq, Structural)]
pub struct Fraction {
    pub numerator: u64,
    pub denominator: u64,
}

/// The proof-format descriptor a bootstrapped client carries: the standard
/// two-level commitment layout, an IAVL store proof under a simple-Merkle
/// chain proof.
#[derive(Clone, Copy, Debug, PartialEq, Eq, Structural)]
pub enum ProofSpecs {
    IavlOverTendermint,
}

/// The client state a bootstrap derives for the host chain.
#[derive(Debug, Clone, PartialEq, Eq)]
pub struct ClientState {
    pub chain_id: Vec<u8>,
    pub trust_level: Fraction,
    pub trusting_period: Duration,
    pub unbonding_period: Duration,
    pub max_clock_drift: Duration,
    pub frozen_height: Option<Height>,
    pub latest_height: Height,
    pub proof_specs: ProofSpecs,
    pub upgrade_path: Vec<Vec<u8>>,
    pub contract_address: Vec<u8>,
}

/// The first upgrade-path segment: the ASCII bytes of "upgrade".
pub open spec fn upgrade_path_prefix() -> Seq<u8> {
    seq![117u8, 112, 103, 114, 97, 100, 101]
}

/// The second upgrade-path segment: the ASCII bytes of "upgradedIBCState".
pub open spec fn upgrade_path_state_key() -> Seq<u8> {
    seq![117u8, 112, 103, 114, 97, 100, 101, 100, 73, 66, 67, 83, 116, 97, 116, 101]
}

/// The consensus state of the host chain at one committed header.
#[derive(Debug, Clone, PartialEq, Eq)]
pub struct ConsensusState {
    /// The app hash the commit's header carries.
    pub root: Vec<u8>,
    pub next_validators_hash: Vec<u8>,
    pub timestamp: u64,
}

/// Bootstrap fails only when a required input is absent.
#[derive(Clone, Copy, Debug, PartialEq, Eq, Structural)]
pub enum BootstrapError {
    MissingUnbondingPeriod,
}

/// Why a chain identifier's revision number could not be parsed.
#[derive(Clone, Copy, Debug, PartialEq, Eq, Structural)]
pub enum IntParseError {
    Empty,
    InvalidDigit,
    Overflow,
}

/// The chain identifier did not end in a parsable revision number. Expected
/// format: a name, a dash, then the decimal revision number.
#[derive(Debug, Clone, PartialEq, Eq)]
pub struct ChainIdParseError {
    pub found: Vec<u8>,
    pub source: Option<IntParseError>,
}

/// A decimal digit byte.
pub open spec fn is_ascii_digit(b: u8) -> bool {
    48 <= b <= 57
}

/// The value of a decimal digit string.
pub open spec fn dec_value(s: Seq<u8>) -> int
    decreases s.len(),
{
    if s.len() == 0 {
        0
    } else {
        dec_value(s.drop_last()) * 10 + (s.last() - 48)
    }
}

/// The bytes after the last dash, or the whole identifier when it holds none.
pub open spec fn rev_suffix(s: Seq<u8>) -> Seq<u8>
    decreases s.len(),
{
    if s.len() == 0 {
        Seq::empty()
    } else if s.last() == 45 {
        Seq::empty()
    } else {
        rev_suffix(s.drop_last()).push(s.last())
    }
}

/// A position just after the last dash pins down the suffix.
proof fn lemma_rev_suffix_from(s: Seq<u8>, start: int)
    requires
        0 <= start <= s.len(),
        forall|j: int| start <= j < s.len() ==> s[j] != 45,
        start > 0 ==> s[start - 1] == 45,
    ensures
        rev_suffix(s) == s.skip(start),
    decreases s.len(),
{
    if s.len() == 0 {
        assert(rev_suffix(s) =~= s.skip(start));
    } else if s.last() == 45 {
        assert(start == s.len());
        assert(rev_suffix(s) =~= s.skip(start));
    } else if start == s.len() {
        assert(s[start - 1] == s.last());
        assert(false);
    } else {
        lemma_rev_suffix_from(s.drop_last(), start);
        assert(rev_suffix(s) == s.drop_last().skip(start).push(s.last()));
        assert(rev_suffix(s) =~= s.skip(start));
    }
}

/// Digit strings have non-negative values that only grow as digits append.
proof fn lemma_dec_value_grows(s: Seq<u8>, i: int, j: int)
    requires
        0 <= i <= j <= s.len(),
        forall|k: int| 0 <= k < j ==> is_ascii_digit(#[trigger] s[k]),
    ensures
        0 <= dec_value(s.subrange(0, i)),
        dec_value(s.subrange(0, i)) <= dec_value(s.subrange(0, j)),
    decreases j,
{
    if j > 0 {
        let b = s.subrange(0, j);
        assert(b.drop_last() =~= s.subrange(0, j - 1));
        assert(b.last() == s[j - 1]);
        if i == j {
            lemma_dec_value_grows(s, j - 1, j - 1);
        } else {
            lemma_dec_value_grows(s, i, j - 1);
        }
    }
}

/// The suffix is non-empty, all digits, and its value fits in 64 bits.
pub open spec fn revision_parses(s: Seq<u8>) -> bool {
    &&& rev_suffix(s).len() > 0
    &&& forall|k: int| 0 <= k < rev_suffix(s).len() ==> is_ascii_digit(#[trigger] rev_suffix(s)[k])
    &&& dec_value(rev_suffix(s)) <= u64::MAX
}

/// Parses the revision number ending a chain identifier: the decimal value
/// of the bytes after the last dash (or of the whole identifier when it
/// holds no dash).
pub fn parse_chain_revision(chain_id: &Vec<u8>) -> (r: Result<u64, ChainIdParseError>)
    ensures
        (r is Ok) <==> revision_parses(chain_id@),
        r matches Ok(n) ==> n == dec_value(rev_suffix(chain_id@)),
        r matches Err(e) ==> e.found@ == chain_id@ && (e.source is Some),
        (rev_suffix(chain_id@).len() == 0) ==> (r matches Err(e) && e.source == Some(IntParseError::Empty)),
{
    let n = chain_id.len();
    proof {
        assert(chain_id@.subrange(0, n as int) =~= chain_id@);
    }
    let mut start: usize = 0;
    let mut i: usize = 0;
    while i < n
        invariant
            n == chain_id@.len(),
            0 <= start <= i <= n,
            forall|j: int| start <= j < i ==> chain_id@[j] != 45,
            start > 0 ==> chain_id@[start - 1] == 45,
        decreases n - i,
    {
        if chain_id[i] == 45 {
            start = i + 1;
        }
        i = i + 1;
    }
    proof {
        lemma_rev_suffix_from(chain_id@, start as int);
    }
    let ghost suffix = rev_suffix(chain_id@);
    if start == n {
        return Err(ChainIdParseError {
            found: subrange_vec(chain_id, 0, n),
            source: Some(IntParseError::Empty),
        });
    }
    let mut acc: u64 = 0;
    let mut k: usize = start;
    while k < n
        invariant
            n == chain_id@.len(),
            0 <= start <= k <= n,
            rev_suffix(chain_id@) == chain_id@.skip(start as int),
            forall|j: int| start <= j < k ==> is_ascii_digit(#[trigger] chain_id@[j]),
            acc == dec_value(chain_id@.subrange(start as int, k as int)),
        decreases n - k,
    {
        let b = chain_id[k];
        if b < 48 || b > 57 {
            proof {
                assert(chain_id@.subrange(0, n as int) =~= chain_id@);
                assert(rev_suffix(chain_id@)[k - start] == chain_id@[k as int]);
                assert(!is_ascii_digit(rev_suffix(chain_id@)[k - start]));
                assert(!revision_parses(chain_id@));
            }
            return Err(ChainIdParseError {
                found: subrange_vec(chain_id, 0, n),
                source: Some(IntParseError::InvalidDigit),
            });
        }
        let d = (b - 48) as u64;
        proof {
            assert(chain_id@.subrange(start as int, k + 1).drop_last() =~= chain_id@.subrange(
                start as int,
                k as int,
            ));
            assert(chain_id@.subrange(start as int, k + 1).last() == chain_id@[k as int]);
        }
        if acc > (u64::MAX - d) / 10 {
            proof {
                assert(chain_id@.subrange(0, n as int) =~= chain_id@);
                lemma_overflow_threshold(acc, d);
                let sfx = chain_id@.skip(start as int);
                assert(chain_id@.subrange(start as int, k + 1) =~= sfx.subrange(0, k + 1 - start));
                if revision_parses(chain_id@) {
                    assert(forall|t: int| 0 <= t < sfx.len() ==> is_ascii_digit(
                        #[trigger] sfx[t],
                    ));
                    lemma_dec_value_grows(sfx, k + 1 - start, sfx.len() as int);
                    assert(sfx.subrange(0, sfx.len() as int) =~= sfx);
                    assert(false);
                }
            }
            return Err(ChainIdParseError {
                found: subrange_vec(chain_id, 0, n),
                source: Some(IntParseError::Overflow),
            });
        }
        proof {
            lemma_no_overflow_threshold(acc, d);
        }
        acc = acc * 10 + d;
        k = k + 1;
    }
    proof {
        assert(chain_id@.subrange(start as int, n as int) =~= chain_id@.skip(start as int));
        assert forall|t: int| 0 <= t < suffix.len() implies is_ascii_digit(
            #[trigger] suffix[t],
        ) by {
            assert(suffix[t] == chain_id@[start + t]);
        }
    }
    Ok(acc)
}

/// Above the threshold, appending the digit overflows 64 bits.
proof fn lemma_overflow_threshold(acc: u64, d: u64)
    requires
        d <= 9,
        acc > (u64::MAX - d) / 10,
    ensures
        acc * 10 + d > u64::MAX,
{
    let m = (u64::MAX - d) as int;
    lemma_fundamental_div_mod(m, 10);
    assert(acc >= m / 10 + 1);
}

/// At or below the threshold, appending the digit still fits in 64 bits.
proof fn lemma_no_overflow_threshold(acc: u64, d: u64)
    requires
        d <= 9,
        acc <= (u64::MAX - d) / 10,
    ensures
        acc * 10 + d <= u64::MAX,
{
    let m = (u64::MAX - d) as int;
    lemma_fundamental_div_mod(m, 10);
}

/// The bootstrap module: the host chain's identity and the parameters its
/// collaborator hands over. Network access stays with the collaborator.
#[derive(Debug, Clone, PartialEq, Eq)]
pub struct Module {
    pub chain_id: Vec<u8>,
    pub chain_revision: u64,
    pub ibc_host_contract_address: Vec<u8>,
}

impl Module {
    /// Builds the module from a chain identifier, parsing its revision.
    pub fn new(chain_id: Vec<u8>, ibc_host_contract_address: Vec<u8>) -> (r: Result<
        Module,
        ChainIdParseError,
    >)
        ensures
            (r is Ok) <==> revision_parses(chain_id@),
            r matches Ok(m) ==> m.chain_id@ == chain_id@ && m.chain_revision == dec_value(
                rev_suffix(chain_id@),
            ) && m.ibc_host_contract_address@ == ibc_host_contract_address@,
            r matches Err(e) ==> e.found@ == chain_id@,
    {
        let chain_revision = match parse_chain_revision(&chain_id) {
            Ok(v) => v,
            Err(e) => {
                return Err(e);
            },
        };
        Ok(Module { chain_id, chain_revision, ibc_host_contract_address })
    }

    /// A height on the host chain, under the module's revision.
    pub fn make_height(&self, height: u64) -> (r: Height)
        ensures
            r.revision_number == self.chain_revision,
            r.revision_height == height,
    {
        Height::new_with_revision(self.chain_revision, height)
    }

    /// Derives the client state describing this chain: trust level fixed at
    /// one third, trusting period exactly 85 percent of the unbonding
    /// period, clock drift fixed at ten minutes, the standard proof spec,
    /// the commit's height as the latest height, and no frozen height.
    /// Fails exactly when the unbonding period is unavailable.
    pub fn self_client_state(&self, commit_height: u64, unbonding_period: Option<Duration>) -> (r:
        Result<ClientState, BootstrapError>)
        requires
            (unbonding_period matches Some(u) ==> u.wf()),
        ensures
            (r is Ok) <==> (unbonding_period is Some),
            (unbonding_period is None) ==> r == Err::<ClientState, BootstrapError>(
                BootstrapError::MissingUnbondingPeriod,
            ),
            r matches Ok(cs) ==> {
                &&& cs.chain_id@ == self.chain_id@
                &&& cs.trust_level == (Fraction { numerator: 1, denominator: 3 })
                &&& cs.trusting_period.as_nanos() == unbonding_period->0.as_nanos() * 85 / 100
                &&& cs.trusting_period.wf()
                &&& cs.unbonding_period == unbonding_period->0
                &&& cs.max_clock_drift == (Duration { seconds: 600, nanos: 0 })
                &&& cs.frozen_height is None
                &&& cs.latest_height == (Height {
                    revision_number: self.chain_revision,
                    revision_height: commit_height,
                })
                &&& cs.proof_specs == ProofSpecs::IavlOverTendermint
                &&& cs.upgrade_path@.len() == 2
                &&& cs.upgrade_path@[0]@ == upgrade_path_prefix()
                &&& cs.upgrade_path@[1]@ == upgrade_path_state_key()
                &&& cs.contract_address@ == self.ibc_host_contract_address@
            },
    {
        let unbonding = match unbonding_period {
            Some(u) => u,
            None => {
                return Err(BootstrapError::MissingUnbondingPeriod);
            },
        };
        let trusting_period = trusting_period_from(&unbonding);
        // "upgrade" and "upgradedIBCState", as bytes.
        let mut upgrade_path: Vec<Vec<u8>> = Vec::new();
        upgrade_path.push(vec![117u8, 112, 103, 114, 97, 100, 101]);
        upgrade_path.push(
            vec![117u8, 112, 103, 114, 97, 100, 101, 100, 73, 66, 67, 83, 116, 97, 116, 101],
        );
        proof {
            assert(upgrade_path@[0]@ =~= upgrade_path_prefix());
            assert(upgrade_path@[1]@ =~= upgrade_path_state_key());
        }
        Ok(ClientState {
            chain_id: subrange_vec(&self.chain_id, 0, self.chain_id.len()),
            trust_level: Fraction { numerator: 1, denominator: 3 },
            trusting_period,
            unbonding_period: unbonding,
            max_clock_drift: Duration { seconds: 600, nanos: 0 },
            frozen_height: None,
            latest_height: self.make_height(commit_height),
            proof_specs: ProofSpecs::IavlOverTendermint,
            upgrade_path,
            contract_address: subrange_vec(
                &self.ibc_host_contract_address,
                0,
                self.ibc_host_contract_address.len(),
            ),
        })
    }

    /// The consensus state at one commit: the header's app hash as the root,
    /// its next-validators hash, and its timestamp.
    pub fn self_consensus_state(&self, app_hash: Vec<u8>, next_validators_hash: Vec<u8>, timestamp: u64) -> (r: ConsensusState)
        ensures
            r.root@ == app_hash@,
            r.next_validators_hash@ == next_validators_hash@,
            r.timestamp == timestamp,
    {
        ConsensusState { root: app_hash, next_validators_hash, timestamp }
    }
}

} // verus!
