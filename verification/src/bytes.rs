//! Big-endian field extraction from raw octets.
//!
//! Every protocol codec in this crate reads its wire fields through these
//! helpers, so their contracts tie each executable read to the
//! mathematical value of the octet sequence.

use vstd::prelude::*;

verus! {

/// The big-endian 16-bit value formed by the two octets at offset `i`.
pub open spec fn be16_at(s: Seq<u8>, i: int) -> u16
    recommends
        0 <= i,
        i + 2 <= s.len(),
{
    ((s[i] as int) * 0x100 + (s[i + 1] as int)) as u16
}

/// The big-endian 32-bit value formed by the four octets at offset `i`.
pub open spec fn be32_at(s: Seq<u8>, i: int) -> u32
    recommends
        0 <= i,
        i + 4 <= s.len(),
{
    ((s[i] as int) * 0x1000000 + (s[i + 1] as int) * 0x10000 + (s[i + 2] as int) * 0x100 + (s[i
        + 3] as int)) as u32
}

/// The big-endian 64-bit value formed by the eight octets at offset `i`.
pub open spec fn be64_at(s: Seq<u8>, i: int) -> u64
    recommends
        0 <= i,
        i + 8 <= s.len(),
{
    ((be32_at(s, i) as int) * 0x100000000 + (be32_at(s, i + 4) as int)) as u64
}

/// Reads the big-endian 16-bit field at offset `i`.
pub fn read_be16(input: &[u8], i: usize) -> (r: u16)
    requires
        i + 2 <= input@.len(),
    ensures
        r == be16_at(input@, i as int),
{
    (input[i] as u16) * 0x100 + (input[i + 1] as u16)
}

/// Reads the big-endian 32-bit field at offset `i`.
pub fn read_be32(input: &[u8], i: usize) -> (r: u32)
    requires
        i + 4 <= input@.len(),
    ensures
        r == be32_at(input@, i as int),
{
    (input[i] as u32) * 0x1000000 + (input[i + 1] as u32) * 0x10000 + (input[i + 2] as u32) * 0x100
        + (input[i + 3] as u32)
}

/// Reads the big-endian 64-bit field at offset `i`.
pub fn read_be64(input: &[u8], i: usize) -> (r: u64)
    requires
        i + 8 <= input@.len(),
    ensures
        r == be64_at(input@, i as int),
{
    let n = input.len();
    assert(i + 8 <= n);
    let hi = read_be32(input, i);
    let lo = read_be32(input, i + 4);
    (hi as u64) * 0x100000000 + (lo as u64)
}

} // verus!
