//! Heights: a revision number paired with a height within that revision,
//! ordered lexicographically.

use vstd::prelude::*;

verus! {

/// A point on a counterparty chain: `(revision_number, revision_height)`.
/// Ordering is lexicographic on the pair; a value is immutable once built.
#[derive(Clone, Copy, Debug, PartialEq, Eq, Structural, Hash)]
pub struct Height {
    pub revision_number: u64,
    pub revision_height: u64,
}

impl Height {
    /// Lexicographic strict order on (revision_number, revision_height).
    pub open spec fn lt_spec(self, other: Height) -> bool {
        self.revision_number < other.revision_number
            || (self.revision_number == other.revision_number
                && self.revision_height < other.revision_height)
    }

    /// The pair folded into a single ordinal, so that `lt_spec` agrees with
    /// `<` on keys: `key(a) < key(b) <==> a.lt_spec(b)`.
    pub open spec fn key(self) -> int {
        self.revision_number * 0x1_0000_0000_0000_0000 + self.revision_height
    }

    pub fn new_with_revision(revision_number: u64, revision_height: u64) -> (r: Height)
        ensures
            r.revision_number == revision_number,
            r.revision_height == revision_height,
    {
        Height { revision_number, revision_height }
    }

    /// Strict lexicographic comparison.
    pub fn lt(&self, other: &Height) -> (r: bool)
        ensures
            r == self.lt_spec(*other),
    {
        self.revision_number < other.revision_number
            || (self.revision_number == other.revision_number
                && self.revision_height < other.revision_height)
    }

    /// Field-wise equality test usable from verified code.
    pub fn eq_height(&self, other: &Height) -> (r: bool)
        ensures
            r == (*self == *other),
    {
        self.revision_number == other.revision_number
            && self.revision_height == other.revision_height
    }
}

/// The single-ordinal encoding respects the lexicographic order exactly.
pub proof fn lemma_height_key_order(a: Height, b: Height)
    ensures
        a.key() < b.key() <==> a.lt_spec(b),
        a.key() == b.key() <==> a == b,
{
    assert(a.revision_height < 0x1_0000_0000_0000_0000);
    assert(b.revision_height < 0x1_0000_0000_0000_0000);
}

} // verus!
