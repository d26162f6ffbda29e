//! Little-endian integer reads at fixed offsets of a byte buffer.

use vstd::prelude::*;

verus! {

/// Value of the two bytes of `s` at `off`, least significant first.
pub open spec fn le_u16(s: Seq<u8>, off: int) -> int {
    s[off] as int + s[off + 1] as int * 0x100
}

/// Value of the four bytes of `s` at `off`, least significant first.
pub open spec fn le_u32(s: Seq<u8>, off: int) -> int {
    le_u16(s, off) + le_u16(s, off + 2) * 0x1_0000
}

/// Value of the eight bytes of `s` at `off`, least significant first.
pub open spec fn le_u64(s: Seq<u8>, off: int) -> int {
    le_u32(s, off) + le_u32(s, off + 4) * 0x1_0000_0000
}

pub fn read_u8(bytes: &[u8], off: usize) -> (r: u8)
    requires
        off < bytes@.len(),
    ensures
        r == bytes@[off as int],
{
    bytes[off]
}

pub fn read_u16(bytes: &[u8], off: usize) -> (r: u16)
    requires
        off + 2 <= bytes@.len(),
    ensures
        r as int == le_u16(bytes@, off as int),
{
    let lo = bytes[off] as u16;
    let hi = bytes[off + 1] as u16;
    lo + hi * 0x100
}

pub fn read_u32(bytes: &[u8], off: usize) -> (r: u32)
    requires
        off + 4 <= bytes@.len(),
    ensures
        r as int == le_u32(bytes@, off as int),
{
    let len = bytes.len();
    assert(off + 2 < len);
    let lo = read_u16(bytes, off) as u32;
    let hi = read_u16(bytes, off + 2) as u32;
    lo + hi * 0x1_0000
}

pub fn read_u64(bytes: &[u8], off: usize) -> (r: u64)
    requires
        off + 8 <= bytes@.len(),
    ensures
        r as int == le_u64(bytes@, off as int),
{
    let len = bytes.len();
    assert(off + 4 < len);
    let lo = read_u32(bytes, off) as u64;
    let hi = read_u32(bytes, off + 4) as u64;
    lo + hi * 0x1_0000_0000
}

/// Reads a signed 64-bit field: the eight bytes' two's-complement value.
pub fn read_i64(bytes: &[u8], off: usize) -> (r: i64)
    requires
        off + 8 <= bytes@.len(),
    ensures
        r == le_u64(bytes@, off as int) as i64,
{
    read_u64(bytes, off) as i64
}

} // verus!
