//! Bit-level helpers built on the `bit_vec` crate.

use vstd::prelude::*;
use bit_vec::BitVec;

verus! {

/// The `BitVec` type of the `bit_vec` crate, opaque to verification.
#[verifier::external_type_specification]
#[verifier::external_body]
#[verifier::reject_recursive_types(B)]
pub struct ExBitVec<B>(BitVec<B>);

/// The bits held by a `BitVec`, first bit first.
pub uninterp spec fn bitvec_bits(v: BitVec) -> Seq<bool>;

/// Bit `i` (counted from the most significant bit) of `byte`.
pub open spec fn msb_bit(byte: u8, i: int) -> bool {
    (byte >> ((7 - i) as u8)) & 1 == 1
}

/// The eight bits of a byte, most significant first.
pub open spec fn byte_bits_msb(byte: u8) -> Seq<bool> {
    Seq::new(8, |i: int| msb_bit(byte, i))
}

/// `BitVec::from_bytes(&[byte])`: the byte becomes eight bits, most significant bit
/// first.
#[verifier::external_body]
pub(crate) fn bitvec_from_byte(byte: u8) -> (r: BitVec)
    ensures
        bitvec_bits(r) == byte_bits_msb(byte),
{
    BitVec::from_bytes(&[byte])
}

/// Whether position `i` of `s` exists and holds `true`.
pub open spec fn bit_at(s: Seq<bool>, i: int) -> bool {
    0 <= i < s.len() && s[i]
}

/// The byte whose bits, most significant first, are positions `start..start + 8`
/// of `s` (missing positions count as `false`).
pub open spec fn pack_byte(s: Seq<bool>, start: int) -> u8 {
    ((if bit_at(s, start) { 128int } else { 0 }) + (if bit_at(s, start + 1) { 64int } else { 0 })
        + (if bit_at(s, start + 2) { 32int } else { 0 }) + (if bit_at(s, start + 3) { 16int } else { 0 })
        + (if bit_at(s, start + 4) { 8int } else { 0 }) + (if bit_at(s, start + 5) { 4int } else { 0 })
        + (if bit_at(s, start + 6) { 2int } else { 0 }) + (if bit_at(s, start + 7) { 1int } else { 0 })) as u8
}

/// `BitVec::from_elem(nbits, bit)`: `nbits` copies of `bit`.
#[verifier::external_body]
pub(crate) fn bitvec_from_elem(nbits: usize, bit: bool) -> (r: BitVec)
    ensures
        bitvec_bits(r) == Seq::new(nbits as nat, |i: int| bit),
{
    BitVec::from_elem(nbits, bit)
}

/// `bv[i]`: bit `i`; an index past the last bit panics, so it is excluded.
#[verifier::external_body]
pub(crate) fn bitvec_get(bv: &BitVec, i: usize) -> (r: bool)
    requires
        i < bitvec_bits(*bv).len(),
    ensures
        r == bitvec_bits(*bv)[i as int],
{
    bv[i]
}

/// `BitVec::set(i, x)`: replaces bit `i`; an index past the last bit panics, so it is
/// excluded.
#[verifier::external_body]
pub(crate) fn bitvec_set(bv: &mut BitVec, i: usize, x: bool)
    requires
        i < bitvec_bits(*old(bv)).len(),
    ensures
        bitvec_bits(*final(bv)) == bitvec_bits(*old(bv)).update(i as int, x),
{
    bv.set(i, x)
}

/// `BitVec::to_bytes()`: the bits packed eight to a byte, first bit in the most
/// significant position, the last byte padded with `false`.
#[verifier::external_body]
pub(crate) fn bitvec_to_bytes(bv: &BitVec) -> (r: Vec<u8>)
    ensures
        r@.len() == (bitvec_bits(*bv).len() + 7) / 8,
        forall|j: int| 0 <= j < r@.len() ==> #[trigger] r@[j] == pack_byte(bitvec_bits(*bv), j * 8),
{
    bv.to_bytes()
}

} // verus!
