//! 128-bit identifiers: the platform's multi-field GUID layout and the
//! canonical 16-byte form used everywhere else in the library.

use vstd::prelude::*;
use vstd::arithmetic::div_mod::lemma_fundamental_div_mod_converse;

verus! {

/// A GUID as the platform stores it: a 32-bit field, two 16-bit fields and
/// an 8-byte trailer; the integer fields sit in memory least significant byte first.
#[derive(Clone, Copy, Debug, PartialEq, Eq)]
pub struct PlatformGuid {
    pub data1: u32,
    pub data2: u16,
    pub data3: u16,
    pub data4: [u8; 8],
}

/// A canonical 128-bit identifier, as its 16 bytes in display order.
#[derive(Clone, Copy, Debug, PartialEq, Eq, Hash)]
pub struct Identifier {
    pub bytes: [u8; 16],
}

/// The bytes of `x`, least significant first.
pub open spec fn le_bytes_u32(x: u32) -> Seq<u8> {
    seq![
        (x % 0x100) as u8,
        ((x / 0x100) % 0x100) as u8,
        ((x / 0x1_0000) % 0x100) as u8,
        (x / 0x100_0000) as u8,
    ]
}

/// The bytes of `x`, least significant first.
pub open spec fn le_bytes_u16(x: u16) -> Seq<u8> {
    seq![(x % 0x100) as u8, (x / 0x100) as u8]
}

/// The 16 bytes of `g` as the platform lays them out in memory.
pub open spec fn platform_layout(g: PlatformGuid) -> Seq<u8> {
    le_bytes_u32(g.data1) + le_bytes_u16(g.data2) + le_bytes_u16(g.data3) + g.data4@
}

/// Reverses the byte order of the first three fields (4, 2 and 2 bytes) of a
/// 16-byte sequence and keeps the 8-byte trailer as it is.
pub open spec fn swap_leading_fields(b: Seq<u8>) -> Seq<u8> {
    seq![b[3], b[2], b[1], b[0], b[5], b[4], b[7], b[6]] + b.subrange(8, 16)
}

/// Canonical bytes of a platform GUID: its memory layout read with the
/// first three fields little-endian.
pub open spec fn canonical_bytes(g: PlatformGuid) -> Seq<u8> {
    swap_leading_fields(platform_layout(g))
}

/// Value of the four bytes of `s` at `off`, most significant first.
pub open spec fn be_u32(s: Seq<u8>, off: int) -> int {
    s[off] as int * 0x100_0000 + s[off + 1] as int * 0x1_0000 + s[off + 2] as int * 0x100
        + s[off + 3] as int
}

/// Value of the two bytes of `s` at `off`, most significant first.
pub open spec fn be_u16(s: Seq<u8>, off: int) -> int {
    s[off] as int * 0x100 + s[off + 1] as int
}

/// `g` holds the platform fields that the canonical bytes `s` encode.
pub open spec fn fields_of(g: PlatformGuid, s: Seq<u8>) -> bool {
    &&& g.data1 as int == be_u32(s, 0)
    &&& g.data2 as int == be_u16(s, 4)
    &&& g.data3 as int == be_u16(s, 6)
    &&& g.data4@ == s.subrange(8, 16)
}

/// Relies on uuid::Uuid::from_bytes_le, which builds a UUID from bytes whose
/// first three fields are little-endian, and on Uuid::into_bytes, which hands
/// back the UUID's bytes.
#[verifier::external_body]
fn uuid_bytes_from_le(b: [u8; 16]) -> (r: [u8; 16])
    ensures
        r@ == swap_leading_fields(b@),
{
    uuid::Uuid::from_bytes_le(b).into_bytes()
}

/// Relies on uuid::Uuid::as_fields, which reads the first three fields of a
/// UUID's bytes most significant byte first; uuid::Uuid::from_bytes only wraps
/// the bytes.
#[verifier::external_body]
fn uuid_fields(b: [u8; 16]) -> (r: (u32, u16, u16, [u8; 8]))
    ensures
        r.0 as int == be_u32(b@, 0),
        r.1 as int == be_u16(b@, 4),
        r.2 as int == be_u16(b@, 6),
        r.3@ == b@.subrange(8, 16),
{
    let id = uuid::Uuid::from_bytes(b);
    let (d1, d2, d3, d4) = id.as_fields();
    (d1, d2, d3, *d4)
}

/// Relies on uuid::Uuid::nil, the identifier whose bytes are all zero.
#[verifier::external_body]
fn uuid_nil_bytes() -> (r: [u8; 16])
    ensures
        r@ == Seq::new(16, |i: int| 0u8),
{
    uuid::Uuid::nil().into_bytes()
}

impl Identifier {
    /// The nil identifier: all 16 bytes zero.
    pub fn nil() -> (r: Identifier)
        ensures
            r.bytes@ == Seq::new(16, |i: int| 0u8),
    {
        Identifier { bytes: uuid_nil_bytes() }
    }

    /// Canonical identifier of a platform GUID.
    pub fn from_platform(g: &PlatformGuid) -> (r: Identifier)
        ensures
            r.bytes@ == canonical_bytes(*g),
    {
        let d1 = g.data1;
        let d2 = g.data2;
        let d3 = g.data3;
        let t = g.data4;
        let raw: [u8; 16] = [
            (d1 % 0x100) as u8,
            ((d1 / 0x100) % 0x100) as u8,
            ((d1 / 0x1_0000) % 0x100) as u8,
            (d1 / 0x100_0000) as u8,
            (d2 % 0x100) as u8,
            (d2 / 0x100) as u8,
            (d3 % 0x100) as u8,
            (d3 / 0x100) as u8,
            t[0],
            t[1],
            t[2],
            t[3],
            t[4],
            t[5],
            t[6],
            t[7],
        ];
        assert(raw@ =~= platform_layout(*g));
        Identifier { bytes: uuid_bytes_from_le(raw) }
    }

    /// Expands the identifier back into the platform's GUID fields.
    pub fn to_platform(&self) -> (r: PlatformGuid)
        ensures
            fields_of(r, self.bytes@),
    {
        let (data1, data2, data3, data4) = uuid_fields(self.bytes);
        PlatformGuid { data1, data2, data3, data4 }
    }
}

proof fn lemma_u32_split(x: u32)
    ensures
        x as int == (x / 0x100_0000) as int * 0x100_0000 + ((x / 0x1_0000) % 0x100) as int * 0x1_0000
            + ((x / 0x100) % 0x100) as int * 0x100 + (x % 0x100) as int,
{
}

proof fn lemma_u16_split(x: u16)
    ensures
        x as int == (x / 0x100) as int * 0x100 + (x % 0x100) as int,
{
}

/// Canonicalizing a platform GUID and expanding the canonical bytes back
/// into platform fields gives back the same fields.
pub proof fn lemma_guid_round_trip(g: PlatformGuid, back: PlatformGuid)
    requires
        fields_of(back, canonical_bytes(g)),
    ensures
        back.data1 == g.data1,
        back.data2 == g.data2,
        back.data3 == g.data3,
        back.data4@ == g.data4@,
{
    let s = canonical_bytes(g);
    lemma_u32_split(g.data1);
    lemma_u16_split(g.data2);
    lemma_u16_split(g.data3);
    assert(s.subrange(8, 16) =~= g.data4@);
}

proof fn lemma_be_u32_bytes(x: int, a: int, b: int, c: int, d: int)
    requires
        0 <= a < 0x100,
        0 <= b < 0x100,
        0 <= c < 0x100,
        0 <= d < 0x100,
        x == a * 0x100_0000 + b * 0x1_0000 + c * 0x100 + d,
    ensures
        x % 0x100 == d,
        (x / 0x100) % 0x100 == c,
        (x / 0x1_0000) % 0x100 == b,
        x / 0x100_0000 == a,
{
    lemma_fundamental_div_mod_converse(x, 0x100, a * 0x1_0000 + b * 0x100 + c, d);
    lemma_fundamental_div_mod_converse(x / 0x100, 0x100, a * 0x100 + b, c);
    lemma_fundamental_div_mod_converse(x, 0x1_0000, a * 0x100 + b, c * 0x100 + d);
    lemma_fundamental_div_mod_converse(x / 0x1_0000, 0x100, a, b);
    lemma_fundamental_div_mod_converse(x, 0x100_0000, a, b * 0x1_0000 + c * 0x100 + d);
}

proof fn lemma_be_u16_bytes(x: int, a: int, b: int)
    requires
        0 <= a < 0x100,
        0 <= b < 0x100,
        x == a * 0x100 + b,
    ensures
        x % 0x100 == b,
        x / 0x100 == a,
{
    lemma_fundamental_div_mod_converse(x, 0x100, a, b);
}

/// Expanding canonical bytes into platform fields and canonicalizing those
/// fields again gives the same bytes.
pub proof fn lemma_identifier_round_trip(s: Seq<u8>, g: PlatformGuid)
    requires
        s.len() == 16,
        fields_of(g, s),
    ensures
        canonical_bytes(g) == s,
{
    let c = canonical_bytes(g);
    lemma_be_u32_bytes(g.data1 as int, s[0] as int, s[1] as int, s[2] as int, s[3] as int);
    lemma_be_u16_bytes(g.data2 as int, s[4] as int, s[5] as int);
    lemma_be_u16_bytes(g.data3 as int, s[6] as int, s[7] as int);
    assert(c[0] == s[0] && c[1] == s[1] && c[2] == s[2] && c[3] == s[3]);
    assert(c[4] == s[4] && c[5] == s[5] && c[6] == s[6] && c[7] == s[7]);
    assert(c =~= s);
}

} // verus!
