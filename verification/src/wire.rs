//! Integers on the wire: how fixed-width values are laid out as bytes.

use vstd::prelude::*;

verus! {

/// The value of the first two bytes of `b`, most significant byte first.
pub open spec fn be16(b: Seq<u8>) -> int
    recommends
        b.len() >= 2,
{
    b[0] as int * 0x100 + b[1] as int
}

/// The value of the first four bytes of `b`, most significant byte first.
pub open spec fn be32(b: Seq<u8>) -> int
    recommends
        b.len() >= 4,
{
    be16(b) * 0x1_0000 + be16(b.skip(2))
}

/// The value of the first eight bytes of `b`, most significant byte first.
pub open spec fn be64(b: Seq<u8>) -> int
    recommends
        b.len() >= 8,
{
    be32(b) * 0x1_0000_0000 + be32(b.skip(4))
}

/// The two bytes of `v`, most significant first.
pub open spec fn be16_bytes(v: u16) -> Seq<u8> {
    seq![(v / 0x100) as u8, (v % 0x100) as u8]
}

/// The four bytes of `v`, most significant first.
pub open spec fn be32_bytes(v: u32) -> Seq<u8> {
    be16_bytes((v / 0x1_0000) as u16) + be16_bytes((v % 0x1_0000) as u16)
}

/// The eight bytes of `v`, most significant first.
pub open spec fn be64_bytes(v: u64) -> Seq<u8> {
    be32_bytes((v / 0x1_0000_0000) as u32) + be32_bytes((v % 0x1_0000_0000) as u32)
}

/// The unsigned value with the same bits as `v`.
pub open spec fn bits_of_i8(v: i8) -> u8 {
    if v < 0 {
        (v + 0x100) as u8
    } else {
        v as u8
    }
}

/// The unsigned value with the same bits as `v`.
pub open spec fn bits_of_i16(v: i16) -> u16 {
    if v < 0 {
        (v + 0x1_0000) as u16
    } else {
        v as u16
    }
}

/// The unsigned value with the same bits as `v`.
pub open spec fn bits_of_i32(v: i32) -> u32 {
    if v < 0 {
        (v + 0x1_0000_0000) as u32
    } else {
        v as u32
    }
}

/// The signed value with the same bits as `v`.
pub open spec fn i32_of_bits(v: u32) -> i32 {
    if v >= 0x8000_0000 {
        (v - 0x1_0000_0000) as i32
    } else {
        v as i32
    }
}

/// The 16-bit integer that stands `at` bytes into `bytes`.
pub fn get_be16(bytes: &[u8], at: usize) -> (v: u16)
    requires
        at + 2 <= bytes@.len(),
    ensures
        v == be16(bytes@.skip(at as int)),
{
    (bytes[at] as u16) * 0x100 + (bytes[at + 1] as u16)
}

/// The 32-bit integer that stands `at` bytes into `bytes`.
pub fn get_be32(bytes: &[u8], at: usize) -> (v: u32)
    requires
        at + 4 <= bytes@.len(),
    ensures
        v == be32(bytes@.skip(at as int)),
{
    assert(bytes@.len() == bytes.len());
    let hi = get_be16(bytes, at);
    let lo = get_be16(bytes, at + 2);
    assert(bytes@.skip(at as int).skip(2) =~= bytes@.skip(at + 2));
    (hi as u32) * 0x1_0000 + (lo as u32)
}

/// The signed integer with the bits of `v`.
pub fn signed(v: u32) -> (s: i32)
    ensures
        s == i32_of_bits(v),
{
    if v >= 0x8000_0000 {
        (v as i64 - 0x1_0000_0000) as i32
    } else {
        v as i32
    }
}

/// Reading back what `be16_bytes` wrote gives the value written.
pub proof fn lemma_be16_round_trip(v: u16)
    ensures
        be16(be16_bytes(v)) == v,
{
}

/// Reading back what `be32_bytes` wrote gives the value written.
pub proof fn lemma_be32_round_trip(v: u32)
    ensures
        be32(be32_bytes(v)) == v,
{
    let hi = (v / 0x1_0000) as u16;
    let lo = (v % 0x1_0000) as u16;
    let b = be32_bytes(v);
    assert(b.skip(2) =~= be16_bytes(lo));
    assert(b[0] == be16_bytes(hi)[0] && b[1] == be16_bytes(hi)[1]);
    lemma_be16_round_trip(hi);
    lemma_be16_round_trip(lo);
}

} // verus!
