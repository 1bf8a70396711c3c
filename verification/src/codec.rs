//! Fixed-width big-endian integer encoding: the deterministic building block
//! of the canonical vote encoding, commitment digests and the wire codecs.

use vstd::prelude::*;
use vstd::arithmetic::div_mod::{lemma_div_denominator, lemma_div_multiples_vanish_fancy, lemma_fundamental_div_mod};

verus! {

/// The big-endian bytes of a 64-bit value, most significant first.
pub open spec fn u64_be_spec(v: u64) -> Seq<u8> {
    seq![
        ((v as int / 0x100000000000000) % 256) as u8,
        ((v as int / 0x1000000000000) % 256) as u8,
        ((v as int / 0x10000000000) % 256) as u8,
        ((v as int / 0x100000000) % 256) as u8,
        ((v as int / 0x1000000) % 256) as u8,
        ((v as int / 0x10000) % 256) as u8,
        ((v as int / 0x100) % 256) as u8,
        (v as int % 256) as u8,
    ]
}

/// The big-endian bytes of a 32-bit value.
pub open spec fn u32_be_spec(v: u32) -> Seq<u8> {
    seq![
        ((v as int / 0x1000000) % 256) as u8,
        ((v as int / 0x10000) % 256) as u8,
        ((v as int / 0x100) % 256) as u8,
        (v as int % 256) as u8,
    ]
}

/// The value read back from 8 big-endian bytes.
pub open spec fn u64_of_be(s: Seq<u8>) -> int {
    s[0] * 0x100000000000000 + s[1] * 0x1000000000000 + s[2] * 0x10000000000
        + s[3] * 0x100000000 + s[4] * 0x1000000 + s[5] * 0x10000 + s[6] * 0x100 + s[7]
}

/// Fixed-width big-endian encoding of a 64-bit value.
pub fn u64_be_bytes(v: u64) -> (r: Vec<u8>)
    ensures
        r@ == u64_be_spec(v),
        r@.len() == 8,
{
    let mut r: Vec<u8> = Vec::new();
    r.push(((v / 0x100000000000000) % 256) as u8);
    r.push(((v / 0x1000000000000) % 256) as u8);
    r.push(((v / 0x10000000000) % 256) as u8);
    r.push(((v / 0x100000000) % 256) as u8);
    r.push(((v / 0x1000000) % 256) as u8);
    r.push(((v / 0x10000) % 256) as u8);
    r.push(((v / 0x100) % 256) as u8);
    r.push((v % 256) as u8);
    proof {
        assert(r@ =~= u64_be_spec(v));
    }
    r
}

/// Fixed-width big-endian encoding of a 32-bit value.
pub fn u32_be_bytes(v: u32) -> (r: Vec<u8>)
    ensures
        r@ == u32_be_spec(v),
        r@.len() == 4,
{
    let mut r: Vec<u8> = Vec::new();
    r.push(((v / 0x1000000) % 256) as u8);
    r.push(((v / 0x10000) % 256) as u8);
    r.push(((v / 0x100) % 256) as u8);
    r.push((v % 256) as u8);
    proof {
        assert(r@ =~= u32_be_spec(v));
    }
    r
}

/// Reads a 64-bit value from 8 big-endian bytes.
pub fn u64_from_be_bytes(s: &Vec<u8>) -> (r: u64)
    requires
        s@.len() == 8,
    ensures
        r == u64_of_be(s@),
{
    let b0 = s[0] as u64;
    let b1 = s[1] as u64;
    let b2 = s[2] as u64;
    let b3 = s[3] as u64;
    let b4 = s[4] as u64;
    let b5 = s[5] as u64;
    let b6 = s[6] as u64;
    let b7 = s[7] as u64;
    b0 * 0x100000000000000 + b1 * 0x1000000000000 + b2 * 0x10000000000 + b3 * 0x100000000
        + b4 * 0x1000000 + b5 * 0x10000 + b6 * 0x100 + b7
}

/// One byte of the telescoping decomposition: the byte at weight `w` scaled
/// back up equals the difference of two adjacent truncations.
proof fn lemma_be_byte_step(v: int, w: int)
    requires
        v >= 0,
        w >= 1,
    ensures
        ((v / w) % 256) * w == (v / w) * w - (v / (w * 256)) * (w * 256),
{
    lemma_fundamental_div_mod(v / w, 256);
    lemma_div_denominator(v, w, 256);
    assert(((v / w) % 256) * w == (v / w) * w - (v / (w * 256)) * (w * 256)) by (nonlinear_arith)
        requires
            (v / w) % 256 == (v / w) - ((v / w) / 256) * 256,
            (v / w) / 256 == v / (w * 256),
    ;
}

/// Fixed-width big-endian encoding reads back to the value it encodes.
pub proof fn lemma_u64_be_round_trip(v: u64)
    ensures
        u64_of_be(u64_be_spec(v)) == v,
{
    let x = v as int;
    lemma_be_byte_step(x, 1);
    lemma_be_byte_step(x, 0x100);
    lemma_be_byte_step(x, 0x10000);
    lemma_be_byte_step(x, 0x1000000);
    lemma_be_byte_step(x, 0x100000000);
    lemma_be_byte_step(x, 0x10000000000);
    lemma_be_byte_step(x, 0x1000000000000);
    lemma_be_byte_step(x, 0x100000000000000);
    lemma_div_multiples_vanish_fancy(0, x, 0x10000000000000000);
    assert(x / 0x10000000000000000 == 0);
    assert((x / 1) == x);
}

/// Zero encodes to the zero-filled fixed-width representation.
pub proof fn lemma_u64_be_zero()
    ensures
        forall|i: int| 0 <= i < 8 ==> u64_be_spec(0)[i] == 0,
{
}

} // verus!
