//! Little-endian decoding of the fixed-width fields of the game's packets.

use vstd::prelude::*;

verus! {

/// The unsigned 16-bit value stored little-endian at `off`.
pub open spec fn le_u16(s: Seq<u8>, off: int) -> u16 {
    (s[off] + s[off + 1] * 0x100) as u16
}

/// The unsigned 32-bit value stored little-endian at `off`.
pub open spec fn le_u32(s: Seq<u8>, off: int) -> u32 {
    (s[off] + s[off + 1] * 0x100 + s[off + 2] * 0x1_0000 + s[off + 3] * 0x100_0000) as u32
}

/// The unsigned 64-bit value stored little-endian at `off`.
pub open spec fn le_u64(s: Seq<u8>, off: int) -> u64 {
    (le_u32(s, off) + le_u32(s, off + 4) * 0x1_0000_0000) as u64
}

/// Reads a little-endian `u16` at `off`.
pub fn read_u16(data: &[u8], off: usize) -> (r: u16)
    requires
        off + 2 <= data.len(),
    ensures
        r == le_u16(data@, off as int),
{
    let b0 = data[off] as u16;
    let b1 = data[off + 1] as u16;
    b0 + b1 * 0x100
}

/// Reads a little-endian `u32` at `off`.
pub fn read_u32(data: &[u8], off: usize) -> (r: u32)
    requires
        off + 4 <= data.len(),
    ensures
        r == le_u32(data@, off as int),
{
    let b0 = data[off] as u32;
    let b1 = data[off + 1] as u32;
    let b2 = data[off + 2] as u32;
    let b3 = data[off + 3] as u32;
    b0 + b1 * 0x100 + b2 * 0x1_0000 + b3 * 0x100_0000
}

/// Reads a little-endian `u64` at `off`.
pub fn read_u64(data: &[u8], off: usize) -> (r: u64)
    requires
        off + 8 <= data.len(),
    ensures
        r == le_u64(data@, off as int),
{
    let lo = read_u32(data, off) as u64;
    let hi = read_u32(data, off + 4) as u64;
    lo + hi * 0x1_0000_0000
}

/// The two bytes of `x`, least significant first.
pub open spec fn u16_le_bytes(x: u16) -> Seq<u8> {
    seq![(x % 0x100) as u8, (x / 0x100) as u8]
}

/// The four bytes of `x`, least significant first.
pub open spec fn u32_le_bytes(x: u32) -> Seq<u8> {
    seq![
        (x % 0x100) as u8,
        ((x / 0x100) % 0x100) as u8,
        ((x / 0x1_0000) % 0x100) as u8,
        (x / 0x100_0000) as u8,
    ]
}

/// A `u16` written least significant byte first is read back unchanged.
pub proof fn lemma_le_u16_roundtrip(s: Seq<u8>, off: int, x: u16)
    requires
        0 <= off,
        off + 2 <= s.len(),
        s.subrange(off, off + 2) == u16_le_bytes(x),
    ensures
        le_u16(s, off) == x,
{
    assert(s[off] == s.subrange(off, off + 2)[0]);
    assert(s[off + 1] == s.subrange(off, off + 2)[1]);
    assert((x % 0x100) + (x / 0x100) * 0x100 == x) by (bit_vector);
}

/// A `u32` written least significant byte first is read back unchanged.
pub proof fn lemma_le_u32_roundtrip(s: Seq<u8>, off: int, x: u32)
    requires
        0 <= off,
        off + 4 <= s.len(),
        s.subrange(off, off + 4) == u32_le_bytes(x),
    ensures
        le_u32(s, off) == x,
{
    assert(s[off] == s.subrange(off, off + 4)[0]);
    assert(s[off + 1] == s.subrange(off, off + 4)[1]);
    assert(s[off + 2] == s.subrange(off, off + 4)[2]);
    assert(s[off + 3] == s.subrange(off, off + 4)[3]);
    assert((x % 0x100) + ((x / 0x100) % 0x100) * 0x100 + ((x / 0x1_0000) % 0x100) * 0x1_0000 + (x
        / 0x100_0000) * 0x100_0000 == x) by (bit_vector);
}

/// The eight bytes of `x`, least significant first.
pub open spec fn u64_le_bytes(x: u64) -> Seq<u8> {
    u32_le_bytes((x % 0x1_0000_0000) as u32) + u32_le_bytes((x / 0x1_0000_0000) as u32)
}

/// A `u64` written least significant byte first is read back unchanged.
pub proof fn lemma_le_u64_roundtrip(s: Seq<u8>, off: int, x: u64)
    requires
        0 <= off,
        off + 8 <= s.len(),
        s.subrange(off, off + 8) == u64_le_bytes(x),
    ensures
        le_u64(s, off) == x,
{
    let lo = (x % 0x1_0000_0000) as u32;
    let hi = (x / 0x1_0000_0000) as u32;
    assert(s.subrange(off, off + 4) =~= s.subrange(off, off + 8).subrange(0, 4));
    assert(s.subrange(off + 4, off + 8) =~= s.subrange(off, off + 8).subrange(4, 8));
    assert(u64_le_bytes(x).subrange(0, 4) =~= u32_le_bytes(lo));
    assert(u64_le_bytes(x).subrange(4, 8) =~= u32_le_bytes(hi));
    lemma_le_u32_roundtrip(s, off, lo);
    lemma_le_u32_roundtrip(s, off + 4, hi);
    assert((x % 0x1_0000_0000) + (x / 0x1_0000_0000) * 0x1_0000_0000 == x) by (bit_vector);
}

} // verus!
