//! Little-endian encoding of the fixed-size fields of kernel structures.

use vstd::prelude::*;

verus! {

/// The two bytes of `x`, least significant first.
pub open spec fn le16(x: u16) -> Seq<u8> {
    seq![(x & 0xff) as u8, ((x >> 8) & 0xff) as u8]
}

/// The four bytes of `x`, least significant first.
pub open spec fn le32(x: u32) -> Seq<u8> {
    seq![(x & 0xff) as u8, ((x >> 8) & 0xff) as u8, ((x >> 16) & 0xff) as u8, ((x >> 24) & 0xff) as u8]
}

/// The eight bytes of `x`, least significant first.
pub open spec fn le64(x: u64) -> Seq<u8> {
    le32((x & 0xffff_ffff) as u32) + le32((x >> 32) as u32)
}

/// The number of zero bytes that bring a length up to a multiple of four.
pub open spec fn pad4(n: nat) -> nat {
    ((4 - (n % 4) as int) % 4) as nat
}

/// `n` zero bytes.
pub open spec fn zeros(n: nat) -> Seq<u8> {
    Seq::new(n, |i: int| 0u8)
}

/// `s` followed by the zero bytes that make its length a multiple of four.
pub open spec fn align4(s: Seq<u8>) -> Seq<u8> {
    s + zeros(pad4(s.len()))
}

/// `s` with the four bytes at `offset` replaced by the encoding of `x`.
pub open spec fn set_le32(s: Seq<u8>, offset: int, x: u32) -> Seq<u8> {
    s.subrange(0, offset) + le32(x) + s.subrange(offset + 4, s.len() as int)
}

/// Appends `x` in little-endian order.
pub fn push_u16(v: &mut Vec<u8>, x: u16)
    ensures
        final(v)@ == old(v)@ + le16(x),
{
    v.push((x & 0xff) as u8);
    v.push(((x >> 8) & 0xff) as u8);
    assert(final(v)@ =~= old(v)@ + le16(x));
}

/// Appends `x` in little-endian order.
pub fn push_u32(v: &mut Vec<u8>, x: u32)
    ensures
        final(v)@ == old(v)@ + le32(x),
{
    v.push((x & 0xff) as u8);
    v.push(((x >> 8) & 0xff) as u8);
    v.push(((x >> 16) & 0xff) as u8);
    v.push(((x >> 24) & 0xff) as u8);
    assert(final(v)@ =~= old(v)@ + le32(x));
}

/// Appends `x` in little-endian order.
pub fn push_u64(v: &mut Vec<u8>, x: u64)
    ensures
        final(v)@ == old(v)@ + le64(x),
{
    push_u32(v, (x & 0xffff_ffff) as u32);
    push_u32(v, (x >> 32) as u32);
    assert(final(v)@ =~= old(v)@ + le64(x));
}

/// Appends all of `bytes`.
pub fn push_bytes(v: &mut Vec<u8>, bytes: &[u8])
    ensures
        final(v)@ == old(v)@ + bytes@,
{
    let mut i: usize = 0;
    while i < bytes.len()
        invariant
            i <= bytes.len(),
            v@ == old(v)@ + bytes@.subrange(0, i as int),
        decreases bytes.len() - i,
    {
        v.push(bytes[i]);
        i = i + 1;
        assert(v@ =~= old(v)@ + bytes@.subrange(0, i as int));
    }
    assert(bytes@.subrange(0, bytes@.len() as int) =~= bytes@);
}

/// Pads with zero bytes up to a multiple of four.
pub fn align4_vec(v: &mut Vec<u8>)
    ensures
        final(v)@ == align4(old(v)@),
{
    let ghost start = old(v)@;
    while v.len() % 4 != 0
        invariant
            start.len() <= v@.len() <= start.len() + 3,
            v@ == start + zeros((v@.len() - start.len()) as nat),
            (v@.len() - start.len()) <= pad4(start.len()),
            v@.len() % 4 != 0 ==> (v@.len() - start.len()) < pad4(start.len()),
        decreases start.len() + 4 - v@.len(),
    {
        v.push(0);
        assert(v@ =~= start + zeros((v@.len() - start.len()) as nat));
    }
    assert(v@.len() - start.len() == pad4(start.len()));
}

/// Overwrites the four bytes at `offset` with `x` in little-endian order.
pub fn set_u32(v: &mut Vec<u8>, offset: usize, x: u32)
    requires
        offset + 4 <= old(v).len(),
    ensures
        final(v)@ == set_le32(old(v)@, offset as int, x),
{
    v.set(offset, (x & 0xff) as u8);
    v.set(offset + 1, ((x >> 8) & 0xff) as u8);
    v.set(offset + 2, ((x >> 16) & 0xff) as u8);
    v.set(offset + 3, ((x >> 24) & 0xff) as u8);
    assert(final(v)@ =~= set_le32(old(v)@, offset as int, x));
}

/// The `u16` stored little-endian at `offset` of `s`.
pub open spec fn u16_at(s: Seq<u8>, offset: int) -> u16 {
    (s[offset] + s[offset + 1] * 256) as u16
}

/// The `u32` stored little-endian at `offset` of `s`.
pub open spec fn u32_at(s: Seq<u8>, offset: int) -> u32 {
    (s[offset] + s[offset + 1] * 256 + s[offset + 2] * 65536 + s[offset + 3] * 16777216) as u32
}

/// Reads a little-endian `u16` at `offset`.
pub fn read_u16(b: &[u8], offset: usize) -> (x: u16)
    requires
        offset + 2 <= b.len(),
    ensures
        x == u16_at(b@, offset as int),
{
    let lo = b[offset];
    let hi = b[offset + 1];
    let x = (lo as u16) | ((hi as u16) << 8);
    assert(x == lo as u16 + (hi as u16) * 256) by (bit_vector)
        requires
            x == (lo as u16) | ((hi as u16) << 8),
    ;
    x
}

/// Reads a little-endian `u32` at `offset`.
pub fn read_u32(b: &[u8], offset: usize) -> (x: u32)
    requires
        offset + 4 <= b.len(),
    ensures
        x == u32_at(b@, offset as int),
{
    let b0 = b[offset];
    let b1 = b[offset + 1];
    let b2 = b[offset + 2];
    let b3 = b[offset + 3];
    let x = (b0 as u32) | ((b1 as u32) << 8) | ((b2 as u32) << 16) | ((b3 as u32) << 24);
    assert(x == b0 as u32 + (b1 as u32) * 256 + (b2 as u32) * 65536 + (b3 as u32) * 16777216)
        by (bit_vector)
        requires
            x == (b0 as u32) | ((b1 as u32) << 8) | ((b2 as u32) << 16) | ((b3 as u32) << 24),
    ;
    x
}

/// The encoding of a `u16` determines it.
pub proof fn lemma_le16_injective(x: u16, y: u16)
    ensures
        le16(x) == le16(y) ==> x == y,
{
    if le16(x) == le16(y) {
        assert(le16(x)[0] == le16(y)[0] && le16(x)[1] == le16(y)[1]);
        assert(x == y) by (bit_vector)
            requires
                (x & 0xff) as u8 == (y & 0xff) as u8,
                ((x >> 8) & 0xff) as u8 == ((y >> 8) & 0xff) as u8,
        ;
    }
}

/// The encoding of a `u32` determines it.
pub proof fn lemma_le32_injective(x: u32, y: u32)
    ensures
        le32(x) == le32(y) ==> x == y,
{
    if le32(x) == le32(y) {
        assert(le32(x)[0] == le32(y)[0] && le32(x)[1] == le32(y)[1] && le32(x)[2] == le32(y)[2]
            && le32(x)[3] == le32(y)[3]);
        assert(x == y) by (bit_vector)
            requires
                (x & 0xff) as u8 == (y & 0xff) as u8,
                ((x >> 8) & 0xff) as u8 == ((y >> 8) & 0xff) as u8,
                ((x >> 16) & 0xff) as u8 == ((y >> 16) & 0xff) as u8,
                ((x >> 24) & 0xff) as u8 == ((y >> 24) & 0xff) as u8,
        ;
    }
}

} // verus!
