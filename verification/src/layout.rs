//! Little-endian integer fields within a byte span.

use crate::signature::{signature_32, spec_signature_32};
use vstd::prelude::*;

verus! {

/// The 16-bit integer stored least significant byte first at offset `at`.
pub open spec fn spec_u16_le(bytes: Seq<u8>, at: int) -> int
    recommends
        0 <= at,
        at + 2 <= bytes.len(),
{
    bytes[at] + 256 * bytes[at + 1]
}

/// The 32-bit integer stored least significant byte first at offset `at`.
pub open spec fn spec_u32_le(bytes: Seq<u8>, at: int) -> int
    recommends
        0 <= at,
        at + 4 <= bytes.len(),
{
    spec_signature_32(bytes[at], bytes[at + 1], bytes[at + 2], bytes[at + 3])
}

/// The 64-bit integer stored least significant byte first at offset `at`.
pub open spec fn spec_u64_le(bytes: Seq<u8>, at: int) -> int
    recommends
        0 <= at,
        at + 8 <= bytes.len(),
{
    spec_u32_le(bytes, at) + 4294967296 * spec_u32_le(bytes, at + 4)
}

/// Reads the 16-bit little-endian integer at offset `at`.
pub fn read_u16_le(bytes: &[u8], at: usize) -> (v: u16)
    requires
        at + 2 <= bytes.len(),
    ensures
        v == spec_u16_le(bytes@, at as int),
{
    let lo: u16 = bytes[at] as u16;
    let hi: u16 = bytes[at + 1] as u16;
    assert(lo | (hi << 8) == lo + 256 * hi) by (bit_vector)
        requires
            lo < 256,
            hi < 256,
    ;
    lo | (hi << 8)
}

/// Reads the 32-bit little-endian integer at offset `at`.
pub fn read_u32_le(bytes: &[u8], at: usize) -> (v: u32)
    requires
        at + 4 <= bytes.len(),
    ensures
        v == spec_u32_le(bytes@, at as int),
{
    signature_32(bytes[at], bytes[at + 1], bytes[at + 2], bytes[at + 3])
}

/// Reads the 64-bit little-endian integer at offset `at`.
pub fn read_u64_le(bytes: &[u8], at: usize) -> (v: u64)
    requires
        at + 8 <= bytes.len(),
    ensures
        v == spec_u64_le(bytes@, at as int),
{
    let lo: u64 = read_u32_le(bytes, at) as u64;
    let hi: u64 = read_u32_le(bytes, at + 4) as u64;
    assert(lo | (hi << 32) == lo + 4294967296 * hi) by (bit_vector)
        requires
            lo < 4294967296,
            hi < 4294967296,
    ;
    lo | (hi << 32)
}

} // verus!
