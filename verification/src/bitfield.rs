//! A growable bit string over bytes, least significant bit first, kept in a `bitvec` vector.
//!
//! Verus cannot look inside `bitvec::vec::BitVec`, so the vector lives in a field of
//! [`BitBuffer`] and every method here states, without proof, what the corresponding
//! `bitvec` call does to the bits. The rest of the crate is verified against these
//! statements.

use bitvec::order::Lsb0;
use bitvec::vec::BitVec;
use vstd::prelude::*;

verus! {

/// A `BitVec<u8, Lsb0>`: bit `8 * k + j` of the buffer is bit `j` (counting from the least
/// significant) of storage byte `k`.
#[verifier::external_body]
pub struct BitBuffer {
    bits: BitVec<u8, Lsb0>,
}

/// The bits that a buffer holds, in index order.
pub uninterp spec fn bit_seq(b: BitBuffer) -> Seq<bool>;

/// The largest byte count and bit count handed to `bitvec` by this crate. Both are far below
/// the limits at which `bitvec` refuses a region, on 32-bit and 64-bit targets alike.
pub const MAX_BUFFER: usize = 4096;

/// Bit `i` of a byte string, counting from the least significant bit of the first byte.
pub open spec fn bit_at(bytes: Seq<u8>, i: int) -> bool {
    (bytes[i / 8] >> ((i % 8) as u8)) & 1u8 == 1u8
}

/// The bits of a byte string, eight per byte, least significant first.
pub open spec fn bits_of_bytes(bytes: Seq<u8>) -> Seq<bool> {
    Seq::new(8 * bytes.len(), |i: int| bit_at(bytes, i))
}

/// `bits` cut or zero-extended to `len` bits.
pub open spec fn resized(bits: Seq<bool>, len: nat, value: bool) -> Seq<bool> {
    Seq::new(len, |i: int| if i < bits.len() { bits[i] } else { value })
}

/// The number of `false` bits after the last `true` bit; the whole length if no bit is set.
pub open spec fn trailing_zero_count(bits: Seq<bool>) -> nat
    decreases bits.len(),
{
    if bits.len() == 0 || bits.last() {
        0
    } else {
        1 + trailing_zero_count(bits.drop_last())
    }
}

impl BitBuffer {
    /// `BitVec::from_slice`: a buffer that spans every bit of `data`.
    /// The call panics only on regions beyond `bitvec`'s limit, which `MAX_BUFFER` excludes.
    #[verifier::external_body]
    pub(crate) fn from_bytes(data: &[u8]) -> (b: BitBuffer)
        requires
            data@.len() <= MAX_BUFFER,
        ensures
            bit_seq(b) == bits_of_bytes(data@),
    {
        BitBuffer { bits: BitVec::<u8, Lsb0>::from_slice(data) }
    }

    /// `BitVec::repeat`: `len` copies of `bit`.
    #[verifier::external_body]
    pub(crate) fn repeat(bit: bool, len: usize) -> (b: BitBuffer)
        requires
            len <= MAX_BUFFER,
        ensures
            bit_seq(b) == Seq::new(len as nat, |i: int| bit),
    {
        BitBuffer { bits: BitVec::<u8, Lsb0>::repeat(bit, len) }
    }

    /// `BitVec::resize`: cuts the buffer to `new_len` bits, or appends copies of `value`
    /// until it holds `new_len` bits.
    #[verifier::external_body]
    pub(crate) fn resize(&mut self, new_len: usize, value: bool)
        requires
            new_len <= MAX_BUFFER,
        ensures
            bit_seq(*final(self)) == resized(bit_seq(*old(self)), new_len as nat, value),
    {
        self.bits.resize(new_len, value)
    }

    /// Indexing a `BitVec` by position: the bit at `index`. Out of bounds it panics.
    #[verifier::external_body]
    pub(crate) fn get(&self, index: usize) -> (bit: bool)
        requires
            index < bit_seq(*self).len(),
        ensures
            bit == bit_seq(*self)[index as int],
    {
        self.bits[index]
    }

    /// `BitSlice::set`: overwrites the bit at `index`. Out of bounds it panics.
    #[verifier::external_body]
    pub(crate) fn set(&mut self, index: usize, value: bool)
        requires
            index < bit_seq(*old(self)).len(),
        ensures
            bit_seq(*final(self)) == bit_seq(*old(self)).update(index as int, value),
    {
        self.bits.set(index, value)
    }

    /// `BitSlice::trailing_zeros`: the number of bits after the last set bit, or the length
    /// of the buffer if no bit is set.
    #[verifier::external_body]
    pub(crate) fn trailing_zeros(&self) -> (n: usize)
        ensures
            n == trailing_zero_count(bit_seq(*self)),
    {
        self.bits.trailing_zeros()
    }

    /// `BitVec::into_vec`: the storage bytes of a buffer whose bits fill them all.
    #[verifier::external_body]
    pub(crate) fn into_bytes(self) -> (bytes: Vec<u8>)
        requires
            bit_seq(self).len() % 8 == 0,
        ensures
            bits_of_bytes(bytes@) == bit_seq(self),
    {
        self.bits.into_vec()
    }
}

} // verus!
