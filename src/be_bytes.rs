//! Big-endian integers in byte sequences.
use vstd::prelude::*;

verus! {

/// The two bytes of `x`, most significant first.
pub open spec fn be16(x: u16) -> Seq<u8> {
    seq![(x >> 8u16) as u8, x as u8]
}

/// The four bytes of `x`, most significant first.
pub open spec fn be32(x: u32) -> Seq<u8> {
    be16((x >> 16u32) as u16) + be16(x as u16)
}

/// The eight bytes of `x`, most significant first.
pub open spec fn be64(x: u64) -> Seq<u8> {
    be32((x >> 32u64) as u32) + be32(x as u32)
}

/// The sixteen bytes of `x`, most significant first.
pub open spec fn be128(x: u128) -> Seq<u8> {
    be64((x >> 64u128) as u64) + be64(x as u64)
}

/// The `u16` stored big-endian at `s[i..i + 2]`.
pub open spec fn u16_at(s: Seq<u8>, i: int) -> u16 {
    (((s[i] as u16) << 8u16) | (s[i + 1] as u16)) as u16
}

/// The `u32` stored big-endian at `s[i..i + 4]`.
pub open spec fn u32_at(s: Seq<u8>, i: int) -> u32 {
    (((u16_at(s, i) as u32) << 16u32) | (u16_at(s, i + 2) as u32)) as u32
}

/// The `u64` stored big-endian at `s[i..i + 8]`.
pub open spec fn u64_at(s: Seq<u8>, i: int) -> u64 {
    (((u32_at(s, i) as u64) << 32u64) | (u32_at(s, i + 4) as u64)) as u64
}

/// The `u128` stored big-endian at `s[i..i + 16]`.
pub open spec fn u128_at(s: Seq<u8>, i: int) -> u128 {
    (((u64_at(s, i) as u128) << 64u128) | (u64_at(s, i + 8) as u128)) as u128
}

proof fn lemma_join16(x: u16)
    ensures
        ((((x >> 8u16) as u8) as u16) << 8u16) | (((x as u8) as u16)) == x,
{
    assert(((((x >> 8u16) as u8) as u16) << 8u16) | (((x as u8) as u16)) == x) by (bit_vector);
}

proof fn lemma_join32(x: u32)
    ensures
        ((((x >> 16u32) as u16) as u32) << 16u32) | (((x as u16) as u32)) == x,
{
    assert(((((x >> 16u32) as u16) as u32) << 16u32) | (((x as u16) as u32)) == x) by (bit_vector);
}

proof fn lemma_join64(x: u64)
    ensures
        ((((x >> 32u64) as u32) as u64) << 32u64) | (((x as u32) as u64)) == x,
{
    assert(((((x >> 32u64) as u32) as u64) << 32u64) | (((x as u32) as u64)) == x) by (bit_vector);
}

proof fn lemma_join128(x: u128)
    ensures
        ((((x >> 64u128) as u64) as u128) << 64u128) | (((x as u64) as u128)) == x,
{
    assert(((((x >> 64u128) as u64) as u128) << 64u128) | (((x as u64) as u128)) == x)
        by (bit_vector);
}

/// Reading back the two bytes written for `x` gives `x`.
pub proof fn lemma_read16(s: Seq<u8>, i: int, x: u16)
    requires
        0 <= i,
        i + 2 <= s.len(),
        s.subrange(i, i + 2) == be16(x),
    ensures
        u16_at(s, i) == x,
{
    assert(s[i] == s.subrange(i, i + 2)[0]);
    assert(s[i + 1] == s.subrange(i, i + 2)[1]);
    lemma_join16(x);
}

/// Reading back the four bytes written for `x` gives `x`.
pub proof fn lemma_read32(s: Seq<u8>, i: int, x: u32)
    requires
        0 <= i,
        i + 4 <= s.len(),
        s.subrange(i, i + 4) == be32(x),
    ensures
        u32_at(s, i) == x,
{
    assert(s.subrange(i, i + 2) =~= s.subrange(i, i + 4).subrange(0, 2));
    assert(s.subrange(i + 2, i + 4) =~= s.subrange(i, i + 4).subrange(2, 4));
    assert(be32(x).subrange(0, 2) =~= be16((x >> 16u32) as u16));
    assert(be32(x).subrange(2, 4) =~= be16(x as u16));
    lemma_read16(s, i, (x >> 16u32) as u16);
    lemma_read16(s, i + 2, x as u16);
    lemma_join32(x);
}

/// Reading back the eight bytes written for `x` gives `x`.
pub proof fn lemma_read64(s: Seq<u8>, i: int, x: u64)
    requires
        0 <= i,
        i + 8 <= s.len(),
        s.subrange(i, i + 8) == be64(x),
    ensures
        u64_at(s, i) == x,
{
    assert(s.subrange(i, i + 4) =~= s.subrange(i, i + 8).subrange(0, 4));
    assert(s.subrange(i + 4, i + 8) =~= s.subrange(i, i + 8).subrange(4, 8));
    assert(be64(x).subrange(0, 4) =~= be32((x >> 32u64) as u32));
    assert(be64(x).subrange(4, 8) =~= be32(x as u32));
    lemma_read32(s, i, (x >> 32u64) as u32);
    lemma_read32(s, i + 4, x as u32);
    lemma_join64(x);
}

/// Reading back the sixteen bytes written for `x` gives `x`.
pub proof fn lemma_read128(s: Seq<u8>, i: int, x: u128)
    requires
        0 <= i,
        i + 16 <= s.len(),
        s.subrange(i, i + 16) == be128(x),
    ensures
        u128_at(s, i) == x,
{
    assert(s.subrange(i, i + 8) =~= s.subrange(i, i + 16).subrange(0, 8));
    assert(s.subrange(i + 8, i + 16) =~= s.subrange(i, i + 16).subrange(8, 16));
    assert(be128(x).subrange(0, 8) =~= be64((x >> 64u128) as u64));
    assert(be128(x).subrange(8, 16) =~= be64(x as u64));
    lemma_read64(s, i, (x >> 64u128) as u64);
    lemma_read64(s, i + 8, x as u64);
    lemma_join128(x);
}

/// Appends the big-endian bytes of `x`.
pub fn push_u16(out: &mut Vec<u8>, x: u16)
    ensures
        final(out)@ == old(out)@ + be16(x),
{
    out.push((x >> 8u16) as u8);
    out.push(x as u8);
    assert(final(out)@ =~= old(out)@ + be16(x));
}

/// Appends the big-endian bytes of `x`.
pub fn push_u32(out: &mut Vec<u8>, x: u32)
    ensures
        final(out)@ == old(out)@ + be32(x),
{
    push_u16(out, (x >> 16u32) as u16);
    push_u16(out, x as u16);
    assert(final(out)@ =~= old(out)@ + be32(x));
}

/// Appends the big-endian bytes of `x`.
pub fn push_u64(out: &mut Vec<u8>, x: u64)
    ensures
        final(out)@ == old(out)@ + be64(x),
{
    push_u32(out, (x >> 32u64) as u32);
    push_u32(out, x as u32);
    assert(final(out)@ =~= old(out)@ + be64(x));
}

/// Appends the big-endian bytes of `x`.
pub fn push_u128(out: &mut Vec<u8>, x: u128)
    ensures
        final(out)@ == old(out)@ + be128(x),
{
    push_u64(out, (x >> 64u128) as u64);
    push_u64(out, x as u64);
    assert(final(out)@ =~= old(out)@ + be128(x));
}

/// The `u16` stored big-endian at `data[i..i + 2]`.
pub fn read_u16(data: &[u8], i: usize) -> (r: u16)
    requires
        i + 2 <= data@.len(),
    ensures
        r == u16_at(data@, i as int),
{
    ((data[i] as u16) << 8u16) | (data[i + 1] as u16)
}

/// The `u32` stored big-endian at `data[i..i + 4]`.
pub fn read_u32(data: &[u8], i: usize) -> (r: u32)
    requires
        i + 4 <= data@.len(),
    ensures
        r == u32_at(data@, i as int),
{
    let len: usize = data.len();
    assert(i + 2 < len);
    ((read_u16(data, i) as u32) << 16u32) | (read_u16(data, i + 2) as u32)
}

/// The `u64` stored big-endian at `data[i..i + 8]`.
pub fn read_u64(data: &[u8], i: usize) -> (r: u64)
    requires
        i + 8 <= data@.len(),
    ensures
        r == u64_at(data@, i as int),
{
    let len: usize = data.len();
    assert(i + 4 < len);
    ((read_u32(data, i) as u64) << 32u64) | (read_u32(data, i + 4) as u64)
}

/// The `u128` stored big-endian at `data[i..i + 16]`.
pub fn read_u128(data: &[u8], i: usize) -> (r: u128)
    requires
        i + 16 <= data@.len(),
    ensures
        r == u128_at(data@, i as int),
{
    let len: usize = data.len();
    assert(i + 8 < len);
    ((read_u64(data, i) as u128) << 64u128) | (read_u64(data, i + 8) as u128)
}

} // verus!
