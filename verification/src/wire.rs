//! Fixed-width integers on the wire and small helpers for byte buffers.

use vstd::prelude::*;
use vstd::slice::slice_subrange;

verus! {

/// The little-endian 16-bit word at `at`.
pub open spec fn le_u16(bytes: Seq<u8>, at: int) -> u16 {
    (bytes[at] as int + 256 * (bytes[at + 1] as int)) as u16
}

/// The big-endian 16-bit word at `at`.
pub open spec fn be_u16(bytes: Seq<u8>, at: int) -> u16 {
    (256 * (bytes[at] as int) + bytes[at + 1] as int) as u16
}

/// The little-endian 64-bit word at `at`.
pub open spec fn le_u64(bytes: Seq<u8>, at: int) -> u64 {
    (bytes[at] as int + 0x100 * (bytes[at + 1] as int) + 0x1_0000 * (bytes[at + 2] as int)
        + 0x100_0000 * (bytes[at + 3] as int) + 0x1_0000_0000 * (bytes[at + 4] as int)
        + 0x100_0000_0000 * (bytes[at + 5] as int) + 0x1_0000_0000_0000 * (bytes[at + 6] as int)
        + 0x100_0000_0000_0000 * (bytes[at + 7] as int)) as u64
}

/// The two bytes of a 16-bit word, low byte first.
pub open spec fn u16_le_bytes(v: u16) -> Seq<u8> {
    seq![(v % 256) as u8, (v / 256) as u8]
}

/// The two bytes of a 16-bit word, high byte first.
pub open spec fn u16_be_bytes(v: u16) -> Seq<u8> {
    seq![(v / 256) as u8, (v % 256) as u8]
}

/// The eight bytes of a 64-bit word, low byte first.
pub open spec fn u64_le_bytes(v: u64) -> Seq<u8> {
    Seq::new(8, |i: int| byte_of_u64(v, i))
}

/// Byte `i` of a 64-bit word, counting from the least significant.
pub open spec fn byte_of_u64(v: u64, i: int) -> u8 {
    if i == 0 {
        (v % 256) as u8
    } else if i == 1 {
        (v / 0x100 % 256) as u8
    } else if i == 2 {
        (v / 0x1_0000 % 256) as u8
    } else if i == 3 {
        (v / 0x100_0000 % 256) as u8
    } else if i == 4 {
        (v / 0x1_0000_0000 % 256) as u8
    } else if i == 5 {
        (v / 0x100_0000_0000 % 256) as u8
    } else if i == 6 {
        (v / 0x1_0000_0000_0000 % 256) as u8
    } else {
        (v / 0x100_0000_0000_0000 % 256) as u8
    }
}

/// The array made of the first two bytes of `s`.
pub open spec fn pair_of(s: Seq<u8>) -> [u8; 2] {
    [s[0], s[1]]
}

/// The bytes of an optional byte string.
pub open spec fn opt_bytes(o: Option<Vec<u8>>) -> Option<Seq<u8>> {
    match o {
        Some(v) => Some(v@),
        None => None,
    }
}

/// The parts of `parts` one after the other.
pub open spec fn concat_all(parts: Seq<Seq<u8>>) -> Seq<u8>
    decreases parts.len(),
{
    if parts.len() == 0 {
        Seq::<u8>::empty()
    } else {
        concat_all(parts.drop_last()) + parts.last()
    }
}

/// Where every part has `width` bytes, the parts lie at multiples of `width`.
pub proof fn lemma_concat_all_fixed(parts: Seq<Seq<u8>>, width: nat)
    requires
        forall|i: int| 0 <= i < parts.len() ==> (#[trigger] parts[i]).len() == width,
    ensures
        concat_all(parts).len() == width * parts.len(),
        forall|i: int|
            0 <= i < parts.len() ==> #[trigger] concat_all(parts).subrange(
                width * i,
                width * i + width,
            ) == parts[i],
    decreases parts.len(),
{
    if parts.len() > 0 {
        let head = parts.drop_last();
        lemma_concat_all_fixed(head, width);
        let n = head.len() as int;
        assert(width * parts.len() == width * n + width) by (nonlinear_arith)
            requires
                parts.len() == n + 1,
        ;
        assert forall|i: int| 0 <= i < parts.len() implies #[trigger] concat_all(parts).subrange(
            width * i,
            width * i + width,
        ) == parts[i] by {
            assert(0 <= width * i && width * i + width <= width * n + width) by (nonlinear_arith)
                requires
                    0 <= i <= n,
            ;
            if i < n {
                assert(width * i + width <= width * n) by (nonlinear_arith)
                    requires
                        0 <= i < n,
                ;
                assert(concat_all(head).subrange(width * i, width * i + width) == head[i]);
                assert(concat_all(parts).subrange(width * i, width * i + width) =~= concat_all(
                    head,
                ).subrange(width * i, width * i + width));
            } else {
                assert(concat_all(parts).subrange(width * i, width * i + width) =~= parts[i]);
            }
        }
    }
}

/// A single part is its own concatenation.
pub proof fn lemma_concat_all_single(part: Seq<u8>)
    ensures
        concat_all(seq![part]) == part,
{
    let parts = seq![part];
    assert(parts.drop_last() =~= Seq::<Seq<u8>>::empty());
    assert(concat_all(parts.drop_last()) =~= Seq::<u8>::empty());
    assert(concat_all(parts) =~= part);
}

/// Appending is associative.
pub proof fn lemma_append_assoc(a: Seq<u8>, b: Seq<u8>, c: Seq<u8>)
    ensures
        (a + b) + c == a + (b + c),
{
    assert((a + b) + c =~= a + (b + c));
}

/// Appending a part appends its bytes.
pub proof fn lemma_concat_all_push(parts: Seq<Seq<u8>>, part: Seq<u8>)
    ensures
        concat_all(parts.push(part)) == concat_all(parts) + part,
{
    assert(parts.push(part).drop_last() =~= parts);
}

/// Bit `i` of a 16-bit word, counting from the least significant.
pub open spec fn bit16(word: u16, i: nat) -> bool {
    (word as int / pow2(i)) % 2 == 1
}

/// Two to the power `i`, for `i` up to 16.
pub open spec fn pow2(i: nat) -> int {
    if i == 0 {
        1
    } else if i == 1 {
        2
    } else if i == 2 {
        4
    } else if i == 3 {
        8
    } else if i == 4 {
        16
    } else if i == 5 {
        32
    } else if i == 6 {
        64
    } else if i == 7 {
        128
    } else if i == 8 {
        256
    } else if i == 9 {
        512
    } else if i == 10 {
        1024
    } else if i == 11 {
        2048
    } else if i == 12 {
        4096
    } else if i == 13 {
        8192
    } else if i == 14 {
        16384
    } else if i == 15 {
        32768
    } else {
        65536
    }
}

pub fn read_le_u16(data: &[u8], at: usize) -> (v: u16)
    requires
        at + 2 <= data@.len(),
    ensures
        v == le_u16(data@, at as int),
{
    data[at] as u16 + 256 * (data[at + 1] as u16)
}

pub fn read_be_u16(data: &[u8], at: usize) -> (v: u16)
    requires
        at + 2 <= data@.len(),
    ensures
        v == be_u16(data@, at as int),
{
    256 * (data[at] as u16) + data[at + 1] as u16
}

pub fn read_le_u64(data: &[u8], at: usize) -> (v: u64)
    requires
        at + 8 <= data@.len(),
    ensures
        v == le_u64(data@, at as int),
{
    data[at] as u64 + 0x100 * (data[at + 1] as u64) + 0x1_0000 * (data[at + 2] as u64)
        + 0x100_0000 * (data[at + 3] as u64) + 0x1_0000_0000 * (data[at + 4] as u64)
        + 0x100_0000_0000 * (data[at + 5] as u64) + 0x1_0000_0000_0000 * (data[at + 6] as u64)
        + 0x100_0000_0000_0000 * (data[at + 7] as u64)
}

/// Tests bit `i` of a 16-bit word.
pub fn test_bit16(word: u16, i: u8) -> (b: bool)
    requires
        i < 16,
    ensures
        b == bit16(word, i as nat),
{
    let p: u16 = if i == 0 {
        1
    } else if i == 1 {
        2
    } else if i == 2 {
        4
    } else if i == 3 {
        8
    } else if i == 4 {
        16
    } else if i == 5 {
        32
    } else if i == 6 {
        64
    } else if i == 7 {
        128
    } else if i == 8 {
        256
    } else if i == 9 {
        512
    } else if i == 10 {
        1024
    } else if i == 11 {
        2048
    } else if i == 12 {
        4096
    } else if i == 13 {
        8192
    } else if i == 14 {
        16384
    } else {
        32768
    };
    (word / p) % 2 == 1
}

/// Appends a 16-bit word, low byte first.
pub fn push_le_u16(out: &mut Vec<u8>, v: u16)
    ensures
        final(out)@ == old(out)@ + u16_le_bytes(v),
{
    out.push((v % 256) as u8);
    out.push((v / 256) as u8);
}

/// Appends a 16-bit word, high byte first.
pub fn push_be_u16(out: &mut Vec<u8>, v: u16)
    ensures
        final(out)@ == old(out)@ + u16_be_bytes(v),
{
    out.push((v / 256) as u8);
    out.push((v % 256) as u8);
}

/// Appends a 64-bit word, low byte first.
pub fn push_le_u64(out: &mut Vec<u8>, v: u64)
    ensures
        final(out)@ == old(out)@ + u64_le_bytes(v),
{
    out.push((v % 256) as u8);
    out.push((v / 0x100 % 256) as u8);
    out.push((v / 0x1_0000 % 256) as u8);
    out.push((v / 0x100_0000 % 256) as u8);
    out.push((v / 0x1_0000_0000 % 256) as u8);
    out.push((v / 0x100_0000_0000 % 256) as u8);
    out.push((v / 0x1_0000_0000_0000 % 256) as u8);
    out.push((v / 0x100_0000_0000_0000 % 256) as u8);
}

/// Appends `data` to `out`.
pub fn push_bytes(out: &mut Vec<u8>, data: &[u8])
    ensures
        final(out)@ == old(out)@ + data@,
{
    out.extend_from_slice(data);
}

/// The bytes of `data` from `from` up to `to`, owned.
pub fn copy_range(data: &[u8], from: usize, to: usize) -> (out: Vec<u8>)
    requires
        from <= to <= data@.len(),
    ensures
        out@ == data@.subrange(from as int, to as int),
{
    let mut out: Vec<u8> = Vec::new();
    out.extend_from_slice(slice_subrange(data, from, to));
    out
}

/// The first `X` bytes of `slice` as an array.
pub fn clone_slice<const X: usize>(slice: &[u8]) -> (out: [u8; X])
    requires
        X <= slice@.len(),
    ensures
        out@ == slice@.take(X as int),
{
    let mut out: [u8; X] = vstd::array::array_fill_for_copy_types(0u8);
    let mut i: usize = 0;
    while i < X
        invariant
            i <= X <= slice@.len(),
            out@.len() == X,
            forall|j: int| 0 <= j < i ==> out@[j] == slice@[j],
        decreases X - i,
    {
        out[i] = slice[i];
        i += 1;
    }
    out
}

/// Round trip of a 16-bit word through its little-endian bytes.
pub proof fn lemma_le_u16_round_trip(v: u16)
    ensures
        le_u16(u16_le_bytes(v), 0) == v,
{
}

/// A 64-bit word is the sum of its bytes, each weighted by its place.
proof fn lemma_u64_bytes_sum(v: u64)
    by (bit_vector)
    ensures
        v == (v % 256) + 0x100 * (v / 0x100 % 256) + 0x1_0000 * (v / 0x1_0000 % 256) + 0x100_0000
            * (v / 0x100_0000 % 256) + 0x1_0000_0000 * (v / 0x1_0000_0000 % 256)
            + 0x100_0000_0000 * (v / 0x100_0000_0000 % 256) + 0x1_0000_0000_0000 * (v
            / 0x1_0000_0000_0000 % 256) + 0x100_0000_0000_0000 * (v / 0x100_0000_0000_0000 % 256),
{
}

/// Round trip of a 64-bit word through its little-endian bytes.
pub proof fn lemma_le_u64_round_trip(v: u64)
    ensures
        le_u64(u64_le_bytes(v), 0) == v,
{
    lemma_u64_bytes_sum(v);
    let b = u64_le_bytes(v);
    assert(b[0] == byte_of_u64(v, 0));
    assert(b[1] == byte_of_u64(v, 1));
    assert(b[2] == byte_of_u64(v, 2));
    assert(b[3] == byte_of_u64(v, 3));
    assert(b[4] == byte_of_u64(v, 4));
    assert(b[5] == byte_of_u64(v, 5));
    assert(b[6] == byte_of_u64(v, 6));
    assert(b[7] == byte_of_u64(v, 7));
}

} // verus!
