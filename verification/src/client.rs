//! The layered client: its state, its height-indexed consensus-state store,
//! the update engine that chains settlement-layer proofs to a rollup header,
//! and the lifecycle rules (append, freeze on misbehaviour, migrate).

use vstd::prelude::*;
use crate::bytes::{bytes_eq, concat_bytes, subrange_vec};
use crate::codec::{u64_be_bytes, u64_be_spec, u64_from_be_bytes, u64_of_be};
use crate::errors::{Error, EvmError};
use crate::hash::{keccak_of, keccak256};
use crate::header::{l2_commitment_digest, Header};
use crate::height::{lemma_height_key_order, Height};
use crate::merkle::{
    account_proof_ok, node_views, storage_proof_ok, verify_account, verify_storage, AccountProof,
    StorageProof,
};

verus! {

/// Per-counterparty client record for a layered (rollup) client.
#[derive(Debug, Clone, PartialEq, Eq)]
pub struct ClientState {
    /// The rollup's chain identifier.
    pub l2_chain_id: u64,
    /// The revision number under which rollup heights are recorded.
    pub l2_revision: u64,
    /// The rollup-anchor contract's address on the settlement chain.
    pub l1_contract_address: Vec<u8>,
    /// The IBC store contract's address on the rollup.
    pub l2_ibc_contract_address: Vec<u8>,
    /// The storage slot holding the latest finalized node index.
    pub l1_next_node_num_slot: Vec<u8>,
    /// The base slot of the node-index-to-digest mapping.
    pub l1_nodes_slot: Vec<u8>,
    /// The latest trusted height.
    pub latest_height: Height,
    /// Set exactly when the client is frozen; terminal for normal updates.
    pub frozen_height: Option<Height>,
}

/// The mathematical model of a [`ClientState`].
pub struct ClientStateView {
    pub l2_chain_id: u64,
    pub l2_revision: u64,
    pub l1_contract_address: Seq<u8>,
    pub l2_ibc_contract_address: Seq<u8>,
    pub l1_next_node_num_slot: Seq<u8>,
    pub l1_nodes_slot: Seq<u8>,
    pub latest_height: Height,
    pub frozen_height: Option<Height>,
}

impl View for ClientState {
    type V = ClientStateView;

    open spec fn view(&self) -> ClientStateView {
        ClientStateView {
            l2_chain_id: self.l2_chain_id,
            l2_revision: self.l2_revision,
            l1_contract_address: self.l1_contract_address@,
            l2_ibc_contract_address: self.l2_ibc_contract_address@,
            l1_next_node_num_slot: self.l1_next_node_num_slot@,
            l1_nodes_slot: self.l1_nodes_slot@,
            latest_height: self.latest_height,
            frozen_height: self.frozen_height,
        }
    }
}

/// The same client-state model with the frozen height set.
pub open spec fn with_frozen(c: ClientStateView, h: Height) -> ClientStateView {
    ClientStateView {
        l2_chain_id: c.l2_chain_id,
        l2_revision: c.l2_revision,
        l1_contract_address: c.l1_contract_address,
        l2_ibc_contract_address: c.l2_ibc_contract_address,
        l1_next_node_num_slot: c.l1_next_node_num_slot,
        l1_nodes_slot: c.l1_nodes_slot,
        latest_height: c.latest_height,
        frozen_height: Some(h),
    }
}

/// The same client-state model with the latest height replaced.
pub open spec fn with_latest(c: ClientStateView, h: Height) -> ClientStateView {
    ClientStateView {
        l2_chain_id: c.l2_chain_id,
        l2_revision: c.l2_revision,
        l1_contract_address: c.l1_contract_address,
        l2_ibc_contract_address: c.l2_ibc_contract_address,
        l1_next_node_num_slot: c.l1_next_node_num_slot,
        l1_nodes_slot: c.l1_nodes_slot,
        latest_height: h,
        frozen_height: c.frozen_height,
    }
}

/// A consensus state recorded at one height: the rollup's state root, the
/// IBC store's storage root under it, and the header's timestamp.
#[derive(Debug, Clone, PartialEq, Eq)]
pub struct ConsensusState {
    pub state_root: Vec<u8>,
    pub ibc_storage_root: Vec<u8>,
    pub timestamp: u64,
}

/// The mathematical model of a [`ConsensusState`].
pub struct ConsensusStateView {
    pub state_root: Seq<u8>,
    pub ibc_storage_root: Seq<u8>,
    pub timestamp: u64,
}

impl View for ConsensusState {
    type V = ConsensusStateView;

    open spec fn view(&self) -> ConsensusStateView {
        ConsensusStateView {
            state_root: self.state_root@,
            ibc_storage_root: self.ibc_storage_root@,
            timestamp: self.timestamp,
        }
    }
}

/// One record of the height-indexed store.
#[derive(Debug, Clone, PartialEq, Eq)]
pub struct StoredConsensusState {
    pub height: Height,
    pub state: ConsensusState,
}

/// The model of one store record.
pub struct EntryView {
    pub height: Height,
    pub state: ConsensusStateView,
}

impl View for StoredConsensusState {
    type V = EntryView;

    open spec fn view(&self) -> EntryView {
        EntryView { height: self.height, state: self.state@ }
    }
}

/// The model of a sequence of store records.
pub open spec fn entries_view(s: Seq<StoredConsensusState>) -> Seq<EntryView> {
    s.map_values(|e: StoredConsensusState| e@)
}

/// The first record at the given height, if any.
pub open spec fn lookup(s: Seq<EntryView>, h: Height) -> Option<ConsensusStateView>
    decreases s.len(),
{
    if s.len() == 0 {
        None
    } else if s[0].height == h {
        Some(s[0].state)
    } else {
        lookup(s.skip(1), h)
    }
}

/// Heights strictly increase along the store.
pub open spec fn sorted(s: Seq<EntryView>) -> bool {
    forall|i: int, j: int| 0 <= i < j < s.len() ==> s[i].height.key() < s[j].height.key()
}

/// Every recorded height is bounded above by the latest height.
pub open spec fn bounded(s: Seq<EntryView>, latest: Height) -> bool {
    forall|i: int| 0 <= i < s.len() ==> (#[trigger] s[i].height).key() <= latest.key()
}

/// If no record matches in the first `i` positions, the lookup is decided by
/// the rest of the store.
pub proof fn lemma_lookup_from(s: Seq<EntryView>, h: Height, i: int)
    requires
        0 <= i <= s.len(),
        forall|j: int| 0 <= j < i ==> s[j].height != h,
    ensures
        lookup(s, h) == lookup(s.skip(i), h),
    decreases i,
{
    if i > 0 {
        lemma_lookup_from(s, h, i - 1);
        let t = s.skip(i - 1);
        assert(t[0] == s[i - 1]);
        assert(t[0].height != h);
        assert(lookup(t, h) == lookup(t.skip(1), h));
        assert(t.skip(1) =~= s.skip(i));
    } else {
        assert(s.skip(0) =~= s);
    }
}

/// A lookup that finds nothing means no record matches.
pub proof fn lemma_lookup_none(s: Seq<EntryView>, h: Height)
    requires
        lookup(s, h) is None,
    ensures
        forall|j: int| 0 <= j < s.len() ==> s[j].height != h,
    decreases s.len(),
{
    if s.len() > 0 {
        lemma_lookup_none(s.skip(1), h);
        assert(forall|j: int| 1 <= j < s.len() ==> s[j] == s.skip(1)[j - 1]);
    }
}

/// Inserting a record for an unrecorded height changes exactly that height's
/// lookup.
pub proof fn lemma_lookup_insert(s: Seq<EntryView>, p: int, e: EntryView, g: Height)
    requires
        0 <= p <= s.len(),
        forall|j: int| 0 <= j < s.len() ==> s[j].height != e.height,
    ensures
        lookup(s.insert(p, e), g) == if g == e.height {
            Some(e.state)
        } else {
            lookup(s, g)
        },
    decreases p,
{
    let t = s.insert(p, e);
    if p == 0 {
        assert(t[0] == e);
        if g != e.height {
            assert(t.skip(1) =~= s);
        }
    } else {
        assert(t[0] == s[0]);
        if g == s[0].height {
            assert(s[0].height != e.height);
        } else {
            assert(t.skip(1) =~= s.skip(1).insert(p - 1, e));
            assert(forall|j: int| 0 <= j < s.skip(1).len() ==> s.skip(1)[j] == s[j + 1]);
            lemma_lookup_insert(s.skip(1), p - 1, e, g);
        }
    }
}

/// The height at which a header's rollup consensus state is recorded.
pub open spec fn update_height(cs: ClientState, h: Header) -> Height {
    Height { revision_number: cs.l2_revision, revision_height: h.l2_header.height }
}

/// The consensus state a verified header derives.
pub open spec fn update_state(h: Header) -> ConsensusStateView {
    ConsensusStateView {
        state_root: h.l2_header.state_root@,
        ibc_storage_root: h.l2_ibc_account_proof.storage_root@,
        timestamp: h.l2_header.timestamp,
    }
}

/// The node index the settlement chain has finalized, read from the last 8
/// bytes of the counter slot's 32-byte value.
pub open spec fn node_index(h: Header) -> u64 {
    u64_of_be(h.l1_next_node_num_slot_proof.value@.subrange(24, 32)) as u64
}

/// The storage slot of the digest for node `n`: the hash of the fixed-width
/// node index beside the mapping's base slot.
pub open spec fn nodes_slot_key(n: u64, base: Seq<u8>) -> Seq<u8> {
    keccak_of(u64_be_spec(n) + base)
}

/// The settlement-layer link: the anchor contract's account proof against the
/// settlement root, the finalized-node counter under its storage root, and
/// the digest of the finalized node under the slot derived from that counter.
pub open spec fn header_l1_ok(cs: ClientState, l1_root: Seq<u8>, h: Header) -> bool {
    &&& account_proof_ok(l1_root, cs.l1_contract_address@, h.l1_account_proof.storage_root@, node_views(h.l1_account_proof.proof@))
    &&& storage_proof_ok(h.l1_account_proof.storage_root@, cs.l1_next_node_num_slot@, h.l1_next_node_num_slot_proof.key@, h.l1_next_node_num_slot_proof.value@, node_views(h.l1_next_node_num_slot_proof.proof@))
    &&& h.l1_next_node_num_slot_proof.value@.len() == 32
    &&& storage_proof_ok(h.l1_account_proof.storage_root@, nodes_slot_key(node_index(h), cs.l1_nodes_slot@), h.l1_nodes_slot_proof.key@, h.l1_nodes_slot_proof.value@, node_views(h.l1_nodes_slot_proof.proof@))
}

/// The rollup-layer link: the IBC contract's account proof against the rollup
/// header's own state root, and the transitivity check binding the header to
/// the digest the settlement chain finalized.
pub open spec fn header_l2_ok(cs: ClientState, h: Header) -> bool {
    &&& account_proof_ok(h.l2_header.state_root@, cs.l2_ibc_contract_address@, h.l2_ibc_account_proof.storage_root@, node_views(h.l2_ibc_account_proof.proof@))
    &&& l2_commitment_digest(h.l2_header) == h.l1_nodes_slot_proof.value@
}

/// A header verifies against a settlement root exactly when both links hold.
pub open spec fn header_verifies(cs: ClientState, l1_root: Seq<u8>, h: Header) -> bool {
    header_l1_ok(cs, l1_root, h) && header_l2_ok(cs, h)
}

/// The header's anchor height has a recorded consensus state and the header
/// verifies against its settlement root.
pub open spec fn anchor_verifies(o: ClientStore, h: Header) -> bool {
    lookup(o.entries(), h.l1_height) matches Some(l1cs)
        && header_verifies(o.client_state, l1cs.state_root, h)
}

/// Nothing recorded at the header's own height contradicts what the header
/// derives (nothing recorded, or the identical consensus state).
pub open spec fn no_conflict(o: ClientStore, h: Header) -> bool {
    match lookup(o.entries(), update_height(o.client_state, h)) {
        Some(prior) => prior == update_state(h),
        None => true,
    }
}

/// The recorded consensus state at the header's own height differs from the
/// one the header derives: misbehaviour.
pub open spec fn conflict_found(o: ClientStore, h: Header) -> bool {
    lookup(o.entries(), update_height(o.client_state, h)) matches Some(prior)
        && prior != update_state(h)
}

/// An update is accepted exactly when the client is active, the anchor link
/// verifies, and nothing recorded conflicts.
pub open spec fn update_accepted(o: ClientStore, h: Header) -> bool {
    &&& o.client_state.frozen_height is None
    &&& anchor_verifies(o, h)
    &&& no_conflict(o, h)
}

/// The store is observably unchanged: same client state model, same records.
pub open spec fn store_unchanged(o: ClientStore, f: ClientStore) -> bool {
    f.client_state@ == o.client_state@ && f.entries() == o.entries()
}

/// After an accepted update the header's own height maps to the derived
/// consensus state and every other height's record is untouched.
pub open spec fn post_entries(o: ClientStore, f: ClientStore, h: Header) -> bool {
    forall|g: Height| lookup(f.entries(), g) == (if g == update_height(o.client_state, h) {
        Some(update_state(h))
    } else {
        lookup(o.entries(), g)
    })
}

/// After an accepted update the client state is unchanged except that the
/// latest height advances exactly when the new height is greater.
pub open spec fn post_client_state(o: ClientStore, f: ClientStore, h: Header) -> bool {
    f.client_state@ == (if o.client_state.latest_height.lt_spec(update_height(o.client_state, h)) {
        with_latest(o.client_state@, update_height(o.client_state, h))
    } else {
        o.client_state@
    })
}

/// Every link before the transitivity check holds, but the recomputed rollup
/// digest differs from the digest the settlement chain finalized.
pub open spec fn digest_is_last_failure(o: ClientStore, h: Header) -> bool {
    &&& o.client_state.frozen_height is None
    &&& lookup(o.entries(), h.l1_height) matches Some(l1cs)
        && header_l1_ok(o.client_state, l1cs.state_root, h)
    &&& account_proof_ok(h.l2_header.state_root@, o.client_state.l2_ibc_contract_address@, h.l2_ibc_account_proof.storage_root@, node_views(h.l2_ibc_account_proof.proof@))
    &&& l2_commitment_digest(h.l2_header) != h.l1_nodes_slot_proof.value@
}

/// The digest-comparison step's error, carrying both digests.
pub open spec fn is_digest_mismatch_err(r: Result<Height, Error>, h: Header) -> bool {
    r matches Err(e) && e matches Error::CommitmentDigestMismatch { expected, computed }
        && expected@ == h.l1_nodes_slot_proof.value@
        && computed@ == l2_commitment_digest(h.l2_header)
}

/// The persisted client: its state and the height-indexed store.
#[derive(Debug, Clone, PartialEq, Eq)]
pub struct ClientStore {
    pub client_state: ClientState,
    pub consensus_states: Vec<StoredConsensusState>,
}

impl ClientStore {
    /// The model of the store's records.
    pub open spec fn entries(self) -> Seq<EntryView> {
        entries_view(self.consensus_states@)
    }

    /// Well-formedness: heights strictly increase and stay bounded by the
    /// latest height.
    pub open spec fn wf(self) -> bool {
        sorted(self.entries()) && bounded(self.entries(), self.client_state.latest_height)
    }

    /// Finds the index of the record at `h`, if one exists.
    fn find_consensus_state(&self, h: &Height) -> (r: Option<usize>)
        ensures
            match r {
                Some(i) => {
                    &&& i < self.entries().len()
                    &&& self.entries()[i as int].height == *h
                    &&& lookup(self.entries(), *h) == Some(self.entries()[i as int].state)
                },
                None => lookup(self.entries(), *h) is None,
            },
    {
        let mut i: usize = 0;
        while i < self.consensus_states.len()
            invariant
                i <= self.entries().len(),
                self.entries().len() == self.consensus_states@.len(),
                forall|j: int| 0 <= j < i ==> self.entries()[j].height != *h,
            decreases self.consensus_states@.len() - i,
        {
            if self.consensus_states[i].height.eq_height(h) {
                proof {
                    lemma_lookup_from(self.entries(), *h, i as int);
                    assert(self.entries().skip(i as int)[0] == self.entries()[i as int]);
                }
                return Some(i);
            }
            i = i + 1;
        }
        proof {
            lemma_lookup_from(self.entries(), *h, self.entries().len() as int);
            assert(self.entries().skip(self.entries().len() as int) =~= Seq::<EntryView>::empty());
        }
        None
    }

    /// The consensus state recorded at `h`, or the not-found error.
    pub fn get_consensus_state(&self, h: &Height) -> (r: Result<&ConsensusState, Error>)
        ensures
            (r is Ok) <==> (lookup(self.entries(), *h) is Some),
            r matches Ok(cs) ==> lookup(self.entries(), *h) == Some(cs@),
            r matches Err(e) ==> e == Error::ConsensusStateNotFound(*h),
    {
        match self.find_consensus_state(h) {
            Some(i) => Ok(&self.consensus_states[i].state),
            None => Err(Error::ConsensusStateNotFound(*h)),
        }
    }

    /// Inserts a record for a height the store does not yet hold, keeping the
    /// records sorted and every other height's lookup unchanged.
    fn insert_consensus_state(&mut self, height: Height, state: ConsensusState)
        requires
            sorted(old(self).entries()),
            lookup(old(self).entries(), height) is None,
        ensures
            sorted(final(self).entries()),
            final(self).client_state == old(self).client_state,
            final(self).entries().len() == old(self).entries().len() + 1,
            forall|g: Height| lookup(final(self).entries(), g) == (if g == height {
                Some(state@)
            } else {
                lookup(old(self).entries(), g)
            }),
            forall|i: int| 0 <= i < final(self).entries().len() ==> (
                (#[trigger] final(self).entries()[i].height) == height
                || exists|j: int| 0 <= j < old(self).entries().len()
                    && old(self).entries()[j].height == final(self).entries()[i].height
            ),
    {
        proof {
            lemma_lookup_none(old(self).entries(), height);
        }
        let mut p: usize = 0;
        while p < self.consensus_states.len()
            && self.consensus_states[p].height.lt(&height)
            invariant
                p <= self.entries().len(),
                self.entries().len() == self.consensus_states@.len(),
                forall|j: int| 0 <= j < p ==> (#[trigger] self.entries()[j].height).key() < height.key(),
            decreases self.consensus_states@.len() - p,
        {
            proof {
                lemma_height_key_order(self.entries()[p as int].height, height);
            }
            p = p + 1;
        }
        proof {
            if (p as int) < self.entries().len() {
                lemma_height_key_order(self.entries()[p as int].height, height);
                lemma_height_key_order(height, self.entries()[p as int].height);
                assert(self.entries()[p as int].height != height);
                assert(self.entries()[p as int].height.key() > height.key());
            }
        }
        let ghost olds = self.entries();
        let entry = StoredConsensusState { height, state };
        let ghost ev = entry@;
        self.consensus_states.insert(p, entry);
        proof {
            assert(self.entries() =~= olds.insert(p as int, ev));
            let t = self.entries();
            assert forall|i: int, j: int| 0 <= i < j < t.len() implies t[i].height.key()
                < t[j].height.key() by {
                if i < p && j > p {
                    assert(t[j] == olds[j - 1]);
                    if j - 1 == p as int {
                        assert(olds[j - 1].height.key() > height.key());
                    } else {
                        assert(olds[p as int].height.key() < olds[j - 1].height.key());
                        assert(olds[p as int].height.key() > height.key());
                    }
                } else if i == p && j > p {
                    assert(t[j] == olds[j - 1]);
                    if j - 1 == p as int {
                        assert(olds[j - 1].height.key() > height.key());
                    } else {
                        assert(olds[p as int].height.key() < olds[j - 1].height.key());
                        assert(olds[p as int].height.key() > height.key());
                    }
                } else if i > p {
                    assert(t[i] == olds[i - 1]);
                    assert(t[j] == olds[j - 1]);
                }
            }
            assert forall|g: Height| lookup(self.entries(), g) == (if g == height {
                Some(state@)
            } else {
                lookup(olds, g)
            }) by {
                lemma_lookup_insert(olds, p as int, ev, g);
            }
        }
    }

    /// Applies an untrusted header: verifies the settlement-layer and rollup
    /// links against the consensus state at the header's anchor height, then
    /// records the derived consensus state. A valid header that conflicts
    /// with an already-recorded consensus state freezes the client; every
    /// other failure leaves the store unchanged.
    pub fn update(&mut self, header: &Header) -> (r: Result<Height, Error>)
        requires
            old(self).wf(),
        ensures
            final(self).wf(),
            // A frozen client accepts nothing.
            (old(self).client_state.frozen_height is Some) ==> (r == Err::<Height, Error>(Error::Frozen(old(self).client_state.frozen_height->0)) && store_unchanged(*old(self), *final(self))),
            // Without an anchor consensus state nothing is verified.
            (old(self).client_state.frozen_height is None && lookup(old(self).entries(), header.l1_height) is None) ==> (r == Err::<Height, Error>(Error::ConsensusStateNotFound(header.l1_height)) && store_unchanged(*old(self), *final(self))),
            // Success exactly when active, verified against the anchor, and
            // free of conflicts.
            (r is Ok) <==> update_accepted(*old(self), *header),
            (r is Ok) ==> (r == Ok::<Height, Error>(update_height(old(self).client_state, *header))),
            (r is Ok) ==> (post_entries(*old(self), *final(self), *header) && post_client_state(*old(self), *final(self), *header)),
            // Misbehaviour: a verified header conflicting with the recorded
            // consensus state at its height freezes the client and changes
            // nothing else.
            (old(self).client_state.frozen_height is None && anchor_verifies(*old(self), *header) && conflict_found(*old(self), *header)) ==> (r == Err::<Height, Error>(Error::Misbehaviour(update_height(old(self).client_state, *header))) && final(self).client_state@ == with_frozen(old(self).client_state@, update_height(old(self).client_state, *header)) && final(self).entries() == old(self).entries()),
            // A header that fails verification changes nothing.
            (old(self).client_state.frozen_height is None && !anchor_verifies(*old(self), *header)) ==> (r is Err && store_unchanged(*old(self), *final(self))),
            // The transitivity check is the last to fail: if every earlier
            // link holds but the recomputed digest differs from the finalized
            // one, that exact error is reported.
            digest_is_last_failure(*old(self), *header) ==> (is_digest_mismatch_err(r, *header) && store_unchanged(*old(self), *final(self))),
    {
        if let Some(fz) = self.client_state.frozen_height {
            return Err(Error::Frozen(fz));
        }
        let idx = match self.find_consensus_state(&header.l1_height) {
            Some(i) => i,
            None => {
                return Err(Error::ConsensusStateNotFound(header.l1_height));
            },
        };
        let l1_root = &self.consensus_states[idx].state.state_root;
        let storage_root = match verify_account(
            l1_root,
            &self.client_state.l1_contract_address,
            &header.l1_account_proof,
        ) {
            Ok(v) => v,
            Err(e) => {
                return Err(Error::Evm(e));
            },
        };
        let nn_value = match verify_storage(
            &storage_root,
            &self.client_state.l1_next_node_num_slot,
            &header.l1_next_node_num_slot_proof,
        ) {
            Ok(v) => v,
            Err(e) => {
                return Err(Error::Evm(e));
            },
        };
        if nn_value.len() != 32 {
            return Err(Error::InvalidCommitmentValueLength(nn_value));
        }
        let n = u64_from_be_bytes(&subrange_vec(&nn_value, 24, 32));
        let slot_key = keccak256(&concat_bytes(&u64_be_bytes(n), &self.client_state.l1_nodes_slot));
        let finalized_digest = match verify_storage(
            &storage_root,
            &slot_key,
            &header.l1_nodes_slot_proof,
        ) {
            Ok(v) => v,
            Err(e) => {
                return Err(Error::Evm(e));
            },
        };
        let l2_ibc_root = match verify_account(
            &header.l2_header.state_root,
            &self.client_state.l2_ibc_contract_address,
            &header.l2_ibc_account_proof,
        ) {
            Ok(v) => v,
            Err(e) => {
                return Err(Error::Evm(e));
            },
        };
        let computed = header.l2_header.commitment_digest();
        if !bytes_eq(&computed, &finalized_digest) {
            return Err(Error::CommitmentDigestMismatch { expected: finalized_digest, computed });
        }
        let new_height = Height {
            revision_number: self.client_state.l2_revision,
            revision_height: header.l2_header.height,
        };
        match self.find_consensus_state(&new_height) {
            Some(j) => {
                let prior = &self.consensus_states[j].state;
                if bytes_eq(&prior.state_root, &header.l2_header.state_root)
                    && bytes_eq(&prior.ibc_storage_root, &l2_ibc_root)
                    && prior.timestamp == header.l2_header.timestamp {
                    proof {
                        lemma_height_key_order(self.client_state.latest_height, new_height);
                        assert(self.entries()[j as int].height.key()
                            <= self.client_state.latest_height.key());
                    }
                    Ok(new_height)
                } else {
                    self.client_state.frozen_height = Some(new_height);
                    Err(Error::Misbehaviour(new_height))
                }
            },
            None => {
                let new_state = ConsensusState {
                    state_root: subrange_vec(&header.l2_header.state_root, 0, header.l2_header.state_root.len()),
                    ibc_storage_root: l2_ibc_root,
                    timestamp: header.l2_header.timestamp,
                };
                proof {
                    assert(header.l2_header.state_root@.subrange(0, header.l2_header.state_root@.len() as int) =~= header.l2_header.state_root@);
                }
                self.insert_consensus_state(new_height, new_state);
                if self.client_state.latest_height.lt(&new_height) {
                    self.client_state.latest_height = new_height;
                }
                proof {
                    lemma_height_key_order(old(self).client_state.latest_height, new_height);
                    assert forall|i: int| 0 <= i < self.entries().len() implies (
                        #[trigger] self.entries()[i]).height.key()
                        <= self.client_state.latest_height.key() by {
                        if self.entries()[i].height == new_height {
                        } else {
                            let j = choose|j: int| 0 <= j < old(self).entries().len()
                                && old(self).entries()[j].height == self.entries()[i].height;
                            assert(old(self).entries()[j].height.key()
                                <= old(self).client_state.latest_height.key());
                        }
                    }
                }
                Ok(new_height)
            },
        }
    }
}

impl ClientStore {
    /// Records a consensus state handed down from a delegated verification:
    /// the hand-over point of layer composition. An outer layer's client
    /// mirrors here what the inner layer's own client just verified and
    /// recorded, then verifies its own header against it; an N-layer
    /// settlement stack is this composition applied repeatedly. Recording is
    /// a no-op when the identical state is already recorded, a misbehaviour
    /// error (with nothing changed) when a different one is, and otherwise an
    /// insertion that advances the latest height exactly when needed.
    pub fn record_consensus_state(&mut self, height: Height, state: ConsensusState) -> (r: Result<
        (),
        Error,
    >)
        requires
            old(self).wf(),
        ensures
            final(self).wf(),
            (r is Ok) <==> (match lookup(old(self).entries(), height) {
                Some(prior) => prior == state@,
                None => true,
            }),
            (r is Ok) ==> (forall|g: Height| lookup(final(self).entries(), g) == (if g == height {
                Some(state@)
            } else {
                lookup(old(self).entries(), g)
            })),
            (r is Ok) ==> final(self).client_state@ == (if old(self).client_state.latest_height.lt_spec(height) {
                with_latest(old(self).client_state@, height)
            } else {
                old(self).client_state@
            }),
            !(r is Ok) ==> (r == Err::<(), Error>(Error::Misbehaviour(height)) && store_unchanged(*old(self), *final(self))),
    {
        match self.find_consensus_state(&height) {
            Some(j) => {
                let prior = &self.consensus_states[j].state;
                if bytes_eq(&prior.state_root, &state.state_root) && bytes_eq(
                    &prior.ibc_storage_root,
                    &state.ibc_storage_root,
                ) && prior.timestamp == state.timestamp {
                    proof {
                        lemma_height_key_order(self.client_state.latest_height, height);
                        assert(self.entries()[j as int].height.key()
                            <= self.client_state.latest_height.key());
                    }
                    Ok(())
                } else {
                    Err(Error::Misbehaviour(height))
                }
            },
            None => {
                self.insert_consensus_state(height, state);
                if self.client_state.latest_height.lt(&height) {
                    self.client_state.latest_height = height;
                }
                proof {
                    lemma_height_key_order(old(self).client_state.latest_height, height);
                    assert forall|i: int| 0 <= i < self.entries().len() implies (
                        #[trigger] self.entries()[i]).height.key()
                        <= self.client_state.latest_height.key() by {
                        if self.entries()[i].height == height {
                        } else {
                            let j = choose|j: int| 0 <= j < old(self).entries().len()
                                && old(self).entries()[j].height == self.entries()[i].height;
                            assert(old(self).entries()[j].height.key()
                                <= old(self).client_state.latest_height.key());
                        }
                    }
                }
                Ok(())
            },
        }
    }
}

/// A header bundle for an N-layer settlement stack: the outermost layer's
/// header over, recursively, the header of the layer it settles on. The
/// nesting is bounded before any verification begins.
#[derive(Debug)]
pub enum NestedHeader {
    Base(Header),
    Over(Header, Box<NestedHeader>),
}

/// The maximum number of layers a nested header may span.
pub const MAX_HEADER_NESTING: usize = 8;

/// How many layers a nested header spans.
pub open spec fn nesting_depth(h: NestedHeader) -> nat
    decreases h,
{
    match h {
        NestedHeader::Base(_) => 1,
        NestedHeader::Over(_, inner) => 1 + nesting_depth(*inner),
    }
}

/// The headers of a nested bundle, innermost (base layer) first.
pub open spec fn nested_headers(h: NestedHeader) -> Seq<Header>
    decreases h,
{
    match h {
        NestedHeader::Base(b) => seq![b],
        NestedHeader::Over(outer, inner) => nested_headers(*inner).push(outer),
    }
}

/// A bundle spans exactly as many headers as layers.
proof fn lemma_nested_len(h: NestedHeader)
    ensures
        nested_headers(h).len() == nesting_depth(h),
    decreases h,
{
    match h {
        NestedHeader::Base(_) => {},
        NestedHeader::Over(_, inner) => {
            lemma_nested_len(*inner);
        },
    }
}

impl NestedHeader {
    /// Unrolls the bundle into per-layer headers, innermost first, rejecting
    /// a bundle deeper than [`MAX_HEADER_NESTING`] before any verification
    /// work is spent on it.
    pub fn flatten(self) -> (r: Result<Vec<Header>, Error>)
        ensures
            (r is Ok) <==> nesting_depth(self) <= MAX_HEADER_NESTING,
            r matches Ok(v) ==> v@ == nested_headers(self),
            !(r is Ok) ==> (r matches Err(e) && e matches Error::HeaderTooDeep { depth, max } && max == MAX_HEADER_NESTING),
        decreases nesting_depth(self),
    {
        let ghost me = self;
        match self {
            NestedHeader::Base(b) => {
                let mut v: Vec<Header> = Vec::new();
                v.push(b);
                proof {
                    assert(v@ =~= nested_headers(me));
                }
                Ok(v)
            },
            NestedHeader::Over(outer, inner) => {
                let ghost gin = *inner;
                let mut v = match (*inner).flatten() {
                    Ok(v) => v,
                    Err(e) => {
                        return Err(e);
                    },
                };
                proof {
                    lemma_nested_len(gin);
                }
                if v.len() >= MAX_HEADER_NESTING {
                    return Err(
                        Error::HeaderTooDeep { depth: v.len() + 1, max: MAX_HEADER_NESTING },
                    );
                }
                v.push(outer);
                proof {
                    assert(v@ =~= nested_headers(me));
                }
                Ok(v)
            },
        }
    }
}

/// Fields outside the migration allow-list (everything except the latest and
/// frozen heights) agree between the two client states.
pub open spec fn migrate_fields_allowed(a: ClientStateView, b: ClientStateView) -> bool {
    &&& a.l2_chain_id == b.l2_chain_id
    &&& a.l2_revision == b.l2_revision
    &&& a.l1_contract_address == b.l1_contract_address
    &&& a.l2_ibc_contract_address == b.l2_ibc_contract_address
    &&& a.l1_next_node_num_slot == b.l1_next_node_num_slot
    &&& a.l1_nodes_slot == b.l1_nodes_slot
}

/// Replaces a (typically frozen) client state with a substitute: allowed only
/// when the substitute is active and differs in no field outside the
/// allow-list. On success the subject becomes the substitute, active.
pub fn migrate(subject: &mut ClientState, substitute: &ClientState) -> (r: Result<(), Error>)
    ensures
        (r is Ok) <==> (substitute.frozen_height is None && migrate_fields_allowed(old(subject)@, substitute@)),
        (substitute.frozen_height is Some) ==> (r == Err::<(), Error>(Error::SubstituteClientFrozen) && final(subject)@ == old(subject)@),
        (substitute.frozen_height is None && !migrate_fields_allowed(old(subject)@, substitute@)) ==> (r == Err::<(), Error>(Error::MigrateFieldsChanged) && final(subject)@ == old(subject)@),
        (r is Ok) ==> (final(subject)@ == substitute@ && final(subject).frozen_height is None),
{
    if substitute.frozen_height.is_some() {
        return Err(Error::SubstituteClientFrozen);
    }
    if subject.l2_chain_id != substitute.l2_chain_id
        || subject.l2_revision != substitute.l2_revision
        || !bytes_eq(&subject.l1_contract_address, &substitute.l1_contract_address)
        || !bytes_eq(&subject.l2_ibc_contract_address, &substitute.l2_ibc_contract_address)
        || !bytes_eq(&subject.l1_next_node_num_slot, &substitute.l1_next_node_num_slot)
        || !bytes_eq(&subject.l1_nodes_slot, &substitute.l1_nodes_slot) {
        return Err(Error::MigrateFieldsChanged);
    }
    subject.latest_height = substitute.latest_height;
    subject.frozen_height = None;
    Ok(())
}

/// A frozen client accepts no update, whatever the header's validity.
pub proof fn lemma_frozen_accepts_nothing(s: ClientStore, h: Header)
    requires
        s.client_state.frozen_height is Some,
    ensures
        !update_accepted(s, h),
{
}

/// Re-submitting an already-applied valid header derives the identical
/// consensus state: the update is accepted again at the same height, and the
/// record there is exactly the one the first application wrote. The header's
/// anchor height must differ from its own height (the two live on different
/// layers), else the first application would overwrite its own anchor.
pub proof fn lemma_update_idempotent(o: ClientStore, f: ClientStore, h: Header)
    requires
        o.client_state.frozen_height is None,
        update_accepted(o, h),
        post_entries(o, f, h),
        post_client_state(o, f, h),
        h.l1_height != update_height(o.client_state, h),
    ensures
        update_accepted(f, h),
        update_height(f.client_state, h) == update_height(o.client_state, h),
        lookup(f.entries(), update_height(f.client_state, h)) == Some(update_state(h)),
{
    let nh = update_height(o.client_state, h);
    assert(f.client_state.l2_revision == o.client_state.l2_revision);
    assert(lookup(f.entries(), h.l1_height) == lookup(o.entries(), h.l1_height));
    assert(lookup(f.entries(), nh) == Some(update_state(h)));
}

/// Heights successfully applied in increasing order are all retained, and the
/// latest height ends at the last (largest) of them, provided the client
/// started below it. The anchor heights live on another layer than the
/// recorded heights, so they never collide.
pub proof fn lemma_store_retains_heights(
    s0: ClientStore, s1: ClientStore, s2: ClientStore, s3: ClientStore,
    x1: Header, x2: Header, x3: Header,
)
    requires
        update_accepted(s0, x1),
        post_entries(s0, s1, x1),
        post_client_state(s0, s1, x1),
        update_accepted(s1, x2),
        post_entries(s1, s2, x2),
        post_client_state(s1, s2, x2),
        update_accepted(s2, x3),
        post_entries(s2, s3, x3),
        post_client_state(s2, s3, x3),
        update_height(s0.client_state, x1).lt_spec(update_height(s0.client_state, x2)),
        update_height(s0.client_state, x2).lt_spec(update_height(s0.client_state, x3)),
        s0.client_state.latest_height.lt_spec(update_height(s0.client_state, x3)),
    ensures
        lookup(s3.entries(), update_height(s0.client_state, x1)) == Some(update_state(x1)),
        lookup(s3.entries(), update_height(s0.client_state, x2)) == Some(update_state(x2)),
        lookup(s3.entries(), update_height(s0.client_state, x3)) == Some(update_state(x3)),
        s3.client_state.latest_height == update_height(s0.client_state, x3),
{
    let h1 = update_height(s0.client_state, x1);
    let h2 = update_height(s0.client_state, x2);
    let h3 = update_height(s0.client_state, x3);
    assert(s1.client_state.l2_revision == s0.client_state.l2_revision);
    assert(s2.client_state.l2_revision == s0.client_state.l2_revision);
    assert(update_height(s1.client_state, x2) == h2);
    assert(update_height(s2.client_state, x3) == h3);
    lemma_height_key_order(h1, h2);
    lemma_height_key_order(h2, h3);
    lemma_height_key_order(h1, h3);
    assert(h1 != h2 && h2 != h3 && h1 != h3);
    assert(lookup(s1.entries(), h1) == Some(update_state(x1)));
    assert(lookup(s2.entries(), h1) == Some(update_state(x1)));
    assert(lookup(s2.entries(), h2) == Some(update_state(x2)));
    lemma_height_key_order(s0.client_state.latest_height, h3);
    lemma_height_key_order(s1.client_state.latest_height, h3);
    lemma_height_key_order(s2.client_state.latest_height, h3);
}

} // verus!
