//! The packed pointer: a guest offset and a byte length carried in one
//! 64-bit word, offset in the low half and length in the high half.
use vstd::prelude::*;

verus! {

/// The low half of a packed word.
pub open spec fn low_half(v: u64) -> u32 {
    (v % 0x1_0000_0000) as u32
}

/// The high half of a packed word.
pub open spec fn high_half(v: u64) -> u32 {
    (v / 0x1_0000_0000) as u32
}

/// The word whose low half is `a` and whose high half is `b`.
pub open spec fn packed(a: u32, b: u32) -> u64 {
    (a as int + b as int * 0x1_0000_0000) as u64
}

/// Splits a packed word into its low and high 32-bit halves.
pub fn from_bitwise(value: u64) -> (r: (u32, u32))
    ensures
        r.0 == low_half(value),
        r.1 == high_half(value),
{
    let r = ((value << 32u64 >> 32u64) as u32, (value >> 32u64) as u32);
    assert(((value << 32u64 >> 32u64) as u32) == (value % 0x1_0000_0000) as u32) by (bit_vector);
    assert(((value >> 32u64) as u32) == (value / 0x1_0000_0000) as u32) by (bit_vector);
    r
}

/// Packs `a` into the low half and `b` into the high half of a 64-bit word.
pub fn into_bitwise(a: u32, b: u32) -> (r: u64)
    ensures
        r == packed(a, b),
        r as int == a as int + b as int * 0x1_0000_0000,
{
    let r = (a as u64) | ((b as u64) << 32u64);
    assert(((a as u64) | ((b as u64) << 32u64)) == (a as u64) + (b as u64) * 0x1_0000_0000)
        by (bit_vector);
    r
}

/// Unpacking a packed pair gives the pair back.
pub proof fn lemma_unpack_pack(a: u32, b: u32)
    ensures
        low_half(packed(a, b)) == a,
        high_half(packed(a, b)) == b,
{
    assert(((a as u64) + (b as u64) * 0x1_0000_0000) % 0x1_0000_0000 == a as u64) by (bit_vector);
    assert(((a as u64) + (b as u64) * 0x1_0000_0000) / 0x1_0000_0000 == b as u64) by (bit_vector);
}

/// Packing the two halves of a word gives the word back.
pub proof fn lemma_pack_unpack(v: u64)
    ensures
        packed(low_half(v), high_half(v)) == v,
{
    assert((v % 0x1_0000_0000) + (v / 0x1_0000_0000) * 0x1_0000_0000 == v) by (bit_vector);
}

} // verus!
