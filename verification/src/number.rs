//! Narrowing of the numbers that a device reports to the width in which they are kept.

use vstd::prelude::*;

verus! {

/// The 16-bit two's complement reading of `n`: the number in that range that equals `n` modulo
/// 2^16.
pub open spec fn wrapped_i16(n: int) -> int {
    (n + 0x8000) % 0x1_0000 - 0x8000
}

/// The low 8 bits of a counter.
pub(crate) fn low_u8(v: u64) -> (r: u8)
    ensures
        r == v % 0x100,
{
    assert(v as u8 == v % 0x100) by (bit_vector);
    #[verifier::truncate]
    (v as u8)
}

/// The low 32 bits of a counter.
pub(crate) fn low_u32(v: u64) -> (r: u32)
    ensures
        r == v % 0x1_0000_0000,
{
    assert(v as u32 == v % 0x1_0000_0000) by (bit_vector);
    #[verifier::truncate]
    (v as u32)
}

/// The low 16 bits of a signed reading.
pub(crate) fn low_i16(v: i64) -> (r: i16)
    ensures
        r == wrapped_i16(v as int),
{
    assert((v as i16) == ((v + 0x8000) % 0x1_0000) - 0x8000) by (bit_vector);
    #[verifier::truncate]
    (v as i16)
}

} // verus!
