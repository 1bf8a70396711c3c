//! The commitment hash. The digest itself is computed by an outside crate;
//! the library names its result and reasons over that name.

use vstd::prelude::*;

verus! {

/// The 32-byte Keccak-256 digest of a byte sequence. The digest is a function
/// of the input alone; nothing further is assumed of its value.
pub uninterp spec fn keccak_of(input: Seq<u8>) -> Seq<u8>;

/// Relies on tiny_keccak::Keccak::v256 (with Hasher::update / finalize):
/// a 32-byte Keccak-256 digest that depends on the input bytes alone.
#[verifier::external_body]
pub(crate) fn keccak256(input: &Vec<u8>) -> (r: Vec<u8>)
    ensures
        r@ == keccak_of(input@),
        r@.len() == 32,
{
    let mut hasher = tiny_keccak::Keccak::v256();
    tiny_keccak::Hasher::update(&mut hasher, input.as_slice());
    let mut out = [0u8; 32];
    tiny_keccak::Hasher::finalize(hasher, &mut out);
    out.to_vec()
}

} // verus!
