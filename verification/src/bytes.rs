//! Little-endian encoding of the multi-byte integers of the wire format.

use vstd::prelude::*;

verus! {

/// The two bytes of `x`, least significant first.
pub open spec fn u16_le(x: u16) -> Seq<u8> {
    seq![(x % 256) as u8, (x / 256) as u8]
}

/// The four bytes of `x`, least significant first.
pub open spec fn u32_le(x: u32) -> Seq<u8> {
    seq![
        (x % 256) as u8,
        (x / 0x100 % 256) as u8,
        (x / 0x1_0000 % 256) as u8,
        (x / 0x100_0000) as u8,
    ]
}

/// The integer whose little-endian bytes are `s[at]` and `s[at + 1]`.
pub open spec fn u16_le_at(s: Seq<u8>, at: int) -> u16 {
    (s[at] as int + 0x100 * s[at + 1] as int) as u16
}

/// The integer whose little-endian bytes are `s[at]` to `s[at + 3]`.
pub open spec fn u32_le_at(s: Seq<u8>, at: int) -> u32 {
    (s[at] as int + 0x100 * s[at + 1] as int + 0x1_0000 * s[at + 2] as int + 0x100_0000 * s[at
        + 3] as int) as u32
}

/// Reading back what `u16_le` wrote gives the value written, wherever the
/// two bytes stand in a buffer.
pub proof fn lemma_u16_le_roundtrip(x: u16, before: Seq<u8>, after: Seq<u8>)
    ensures
        u16_le(x).len() == 2,
        u16_le_at(before + u16_le(x) + after, before.len() as int) == x,
{
    let s = before + u16_le(x) + after;
    let at = before.len() as int;
    assert(s[at] == u16_le(x)[0]);
    assert(s[at + 1] == u16_le(x)[1]);
}

/// Reading back what `u32_le` wrote gives the value written, wherever the
/// four bytes stand in a buffer.
pub proof fn lemma_u32_le_roundtrip(x: u32, before: Seq<u8>, after: Seq<u8>)
    ensures
        u32_le(x).len() == 4,
        u32_le_at(before + u32_le(x) + after, before.len() as int) == x,
{
    let s = before + u32_le(x) + after;
    let at = before.len() as int;
    assert(s[at] == u32_le(x)[0]);
    assert(s[at + 1] == u32_le(x)[1]);
    assert(s[at + 2] == u32_le(x)[2]);
    assert(s[at + 3] == u32_le(x)[3]);
}

/// Appends the little-endian bytes of `x` to `buf`.
pub fn push_u16_le(buf: &mut Vec<u8>, x: u16)
    ensures
        final(buf)@ == old(buf)@ + u16_le(x),
{
    buf.push((x % 256) as u8);
    buf.push((x / 256) as u8);
    assert(buf@ =~= old(buf)@ + u16_le(x));
}

/// Appends the little-endian bytes of `x` to `buf`.
pub fn push_u32_le(buf: &mut Vec<u8>, x: u32)
    ensures
        final(buf)@ == old(buf)@ + u32_le(x),
{
    buf.push((x % 256) as u8);
    buf.push((x / 0x100 % 256) as u8);
    buf.push((x / 0x1_0000 % 256) as u8);
    buf.push((x / 0x100_0000) as u8);
    assert(buf@ =~= old(buf)@ + u32_le(x));
}

/// Reads the little-endian `u16` that starts at index `at`.
pub fn read_u16_le(buf: &[u8], at: usize) -> (x: u16)
    requires
        at + 2 <= buf@.len(),
    ensures
        x == u16_le_at(buf@, at as int),
{
    let lo: u16 = buf[at] as u16;
    let hi: u16 = buf[at + 1] as u16;
    lo + 0x100 * hi
}

/// Reads the little-endian `u32` that starts at index `at`.
pub fn read_u32_le(buf: &[u8], at: usize) -> (x: u32)
    requires
        at + 4 <= buf@.len(),
    ensures
        x == u32_le_at(buf@, at as int),
{
    let b0: u32 = buf[at] as u32;
    let b1: u32 = buf[at + 1] as u32;
    let b2: u32 = buf[at + 2] as u32;
    let b3: u32 = buf[at + 3] as u32;
    b0 + 0x100 * b1 + 0x1_0000 * b2 + 0x100_0000 * b3
}

} // verus!
