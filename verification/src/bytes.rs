//! Integers as little-endian bytes.

use vstd::prelude::*;

verus! {

/// The two bytes of `x`, least significant first.
pub open spec fn u16_bytes(x: u16) -> Seq<u8> {
    seq![(x % 256) as u8, (x / 256) as u8]
}

/// The four bytes of `x`, least significant first.
pub open spec fn u32_bytes(x: u32) -> Seq<u8> {
    seq![
        (x % 256) as u8,
        (x / 0x100 % 256) as u8,
        (x / 0x1_0000 % 256) as u8,
        (x / 0x100_0000) as u8,
    ]
}

/// The eight bytes of `x`, least significant first.
pub open spec fn u64_bytes(x: u64) -> Seq<u8> {
    u32_bytes((x % 0x1_0000_0000) as u32) + u32_bytes((x / 0x1_0000_0000) as u32)
}

/// The integer whose little-endian bytes are the first two of `s`.
pub open spec fn u16_of(s: Seq<u8>) -> u16 {
    (s[0] + 0x100 * s[1]) as u16
}

/// The integer whose little-endian bytes are the first four of `s`.
pub open spec fn u32_of(s: Seq<u8>) -> u32 {
    (s[0] + 0x100 * s[1] + 0x1_0000 * s[2] + 0x100_0000 * s[3]) as u32
}

/// The integer whose little-endian bytes are the first eight of `s`.
pub open spec fn u64_of(s: Seq<u8>) -> u64 {
    (u32_of(s) + 0x1_0000_0000 * u32_of(s.subrange(4, 8))) as u64
}

/// Four bytes read back give the integer they were made from.
pub proof fn lemma_u32_bytes(x: u32)
    ensures
        u32_bytes(x).len() == 4,
        u32_of(u32_bytes(x)) == x,
{
}

/// Eight bytes read back give the integer they were made from.
pub proof fn lemma_u64_bytes(x: u64)
    ensures
        u64_bytes(x).len() == 8,
        u64_of(u64_bytes(x)) == x,
{
    let low = (x % 0x1_0000_0000) as u32;
    let high = (x / 0x1_0000_0000) as u32;
    lemma_u32_bytes(low);
    lemma_u32_bytes(high);
    assert(u64_bytes(x).subrange(4, 8) =~= u32_bytes(high));
}

/// Appends the four little-endian bytes of `x`.
pub fn push_u32(bytes: &mut Vec<u8>, x: u32)
    ensures
        final(bytes)@ == old(bytes)@ + u32_bytes(x),
{
    let ghost before = bytes@;
    bytes.push((x % 256) as u8);
    bytes.push((x / 0x100 % 256) as u8);
    bytes.push((x / 0x1_0000 % 256) as u8);
    bytes.push((x / 0x100_0000) as u8);
    assert(bytes@ =~= before + u32_bytes(x));
}

/// Appends the eight little-endian bytes of `x`.
pub fn push_u64(bytes: &mut Vec<u8>, x: u64)
    ensures
        final(bytes)@ == old(bytes)@ + u64_bytes(x),
{
    let ghost before = bytes@;
    push_u32(bytes, (x % 0x1_0000_0000) as u32);
    push_u32(bytes, (x / 0x1_0000_0000) as u32);
    assert(bytes@ =~= before + u64_bytes(x));
}

/// The 16-bit integer stored at `at`.
pub fn read_u16_at(bytes: &[u8], at: usize) -> (r: u16)
    requires
        at + 2 <= bytes@.len(),
    ensures
        r == u16_of(bytes@.subrange(at as int, at + 2)),
{
    bytes[at] as u16 + 0x100 * (bytes[at + 1] as u16)
}

/// The 32-bit integer stored at `at`.
pub fn read_u32_at(bytes: &[u8], at: usize) -> (r: u32)
    requires
        at + 4 <= bytes@.len(),
    ensures
        r == u32_of(bytes@.subrange(at as int, at + 4)),
{
    bytes[at] as u32 + 0x100 * (bytes[at + 1] as u32) + 0x1_0000 * (bytes[at + 2] as u32)
        + 0x100_0000 * (bytes[at + 3] as u32)
}

/// The 64-bit integer stored at `at`.
pub fn read_u64_at(bytes: &[u8], at: usize) -> (r: u64)
    requires
        at + 8 <= bytes@.len(),
    ensures
        r == u64_of(bytes@.subrange(at as int, at + 8)),
{
    // The length of a slice is a `usize`, so the positions below are too.
    let _len = bytes.len();
    let low = read_u32_at(bytes, at);
    let high = read_u32_at(bytes, at + 4);
    assert(bytes@.subrange(at as int, at + 8).subrange(4, 8) =~= bytes@.subrange(at + 4, at + 8));
    assert(u32_of(bytes@.subrange(at as int, at + 8)) == u32_of(
        bytes@.subrange(at as int, at + 4),
    ));
    low as u64 + 0x1_0000_0000 * (high as u64)
}

/// The bytes `memory` with `bytes` written over them from position `at` on.
pub open spec fn written(memory: Seq<u8>, at: int, bytes: Seq<u8>) -> Seq<u8> {
    memory.subrange(0, at) + bytes + memory.subrange(at + bytes.len(), memory.len() as int)
}

/// Writes the four little-endian bytes of `x` at `at`.
pub fn write_u32(bytes: &mut Vec<u8>, at: usize, x: u32)
    requires
        at + 4 <= old(bytes)@.len(),
    ensures
        final(bytes)@ == written(old(bytes)@, at as int, u32_bytes(x)),
{
    let ghost before = bytes@;
    // The length of a slice is a `usize`, so the positions below are too.
    let _len = bytes.len();
    bytes[at] = (x % 256) as u8;
    bytes[at + 1] = (x / 0x100 % 256) as u8;
    bytes[at + 2] = (x / 0x1_0000 % 256) as u8;
    bytes[at + 3] = (x / 0x100_0000) as u8;
    assert(bytes@ =~= written(before, at as int, u32_bytes(x)));
}

/// Writes the eight little-endian bytes of `x` at `at`.
pub fn write_u64(bytes: &mut Vec<u8>, at: usize, x: u64)
    requires
        at + 8 <= old(bytes)@.len(),
    ensures
        final(bytes)@ == written(old(bytes)@, at as int, u64_bytes(x)),
{
    let ghost before = bytes@;
    // The length of a slice is a `usize`, so the positions below are too.
    let _len = bytes.len();
    write_u32(bytes, at, (x % 0x1_0000_0000) as u32);
    write_u32(bytes, at + 4, (x / 0x1_0000_0000) as u32);
    assert(bytes@ =~= written(before, at as int, u64_bytes(x)));
}

} // verus!
