//! Table signatures: four ASCII bytes packed least-significant byte first
//! into a 32-bit code.

use vstd::prelude::*;

verus! {

/// The 16-bit code whose low byte is `a` and whose high byte is `b`.
pub open spec fn spec_signature_16(a: u8, b: u8) -> int {
    a + 256 * b
}

/// The 32-bit code whose bytes, from least to most significant, are
/// `a`, `b`, `c` and `d`.
pub open spec fn spec_signature_32(a: u8, b: u8, c: u8, d: u8) -> int {
    a + 256 * b + 65536 * c + 16777216 * d
}

/// Byte `i` of `sig`, counted from the least significant one.
pub open spec fn spec_signature_byte(sig: u32, i: int) -> u8
    recommends
        0 <= i < 4,
{
    if i == 0 {
        (sig % 256) as u8
    } else if i == 1 {
        (sig / 256 % 256) as u8
    } else if i == 2 {
        (sig / 65536 % 256) as u8
    } else {
        (sig / 16777216 % 256) as u8
    }
}

/// The four bytes of `sig`, least significant first.
pub open spec fn spec_signature_bytes(sig: u32) -> Seq<u8> {
    seq![
        spec_signature_byte(sig, 0),
        spec_signature_byte(sig, 1),
        spec_signature_byte(sig, 2),
        spec_signature_byte(sig, 3),
    ]
}

/// Packs two bytes, low byte first.
pub fn signature_16(a: u8, b: u8) -> (sig: u32)
    ensures
        sig == spec_signature_16(a, b),
{
    let lo: u32 = a as u32;
    let hi: u32 = b as u32;
    assert(lo | (hi << 8) == lo + 256 * hi) by (bit_vector)
        requires
            lo < 256,
            hi < 256,
    ;
    lo | (hi << 8)
}

/// Packs four bytes into a signature, least significant byte first.
pub fn signature_32(a: u8, b: u8, c: u8, d: u8) -> (sig: u32)
    ensures
        sig == spec_signature_32(a, b, c, d),
{
    let lo: u32 = signature_16(a, b);
    let hi: u32 = signature_16(c, d);
    assert(lo | (hi << 16) == lo + 65536 * hi) by (bit_vector)
        requires
            lo < 65536,
            hi < 65536,
    ;
    lo | (hi << 16)
}

/// Unpacks a signature into its four bytes, least significant first.
pub fn signature_bytes(sig: u32) -> (bytes: [u8; 4])
    ensures
        bytes@ == spec_signature_bytes(sig),
{
    assert(sig & 0xff == sig % 256) by (bit_vector);
    assert((sig >> 8) & 0xff == sig / 256 % 256) by (bit_vector);
    assert((sig >> 16) & 0xff == sig / 65536 % 256) by (bit_vector);
    assert((sig >> 24) & 0xff == sig / 16777216 % 256) by (bit_vector);
    let b0: u8 = (sig & 0xff) as u8;
    let b1: u8 = ((sig >> 8) & 0xff) as u8;
    let b2: u8 = ((sig >> 16) & 0xff) as u8;
    let b3: u8 = ((sig >> 24) & 0xff) as u8;
    let bytes: [u8; 4] = [b0, b1, b2, b3];
    assert(bytes@ =~= spec_signature_bytes(sig));
    bytes
}

/// The bytes of a sum of four bytes, each weighted by its place.
proof fn lemma_places(a: u32, b: u32, c: u32, d: u32)
    by (bit_vector)
    requires
        a < 256,
        b < 256,
        c < 256,
        d < 256,
    ensures
        a + 256 * b + 65536 * c + 16777216 * d <= 0xffff_ffff,
        (a + 256 * b + 65536 * c + 16777216 * d) % 256 == a,
        (a + 256 * b + 65536 * c + 16777216 * d) / 256 % 256 == b,
        (a + 256 * b + 65536 * c + 16777216 * d) / 65536 % 256 == c,
        (a + 256 * b + 65536 * c + 16777216 * d) / 16777216 % 256 == d,
{
}

/// A 32-bit integer is the sum of its bytes, each weighted by its place.
proof fn lemma_sum_of_places(sig: u32)
    by (bit_vector)
    ensures
        sig % 256 + 256 * (sig / 256 % 256) + 65536 * (sig / 65536 % 256) + 16777216 * (sig
            / 16777216 % 256) == sig,
{
}

/// Unpacking a signature and packing the bytes again gives the signature
/// back.
pub proof fn lemma_unpack_then_pack(sig: u32)
    ensures
        spec_signature_32(
            spec_signature_byte(sig, 0),
            spec_signature_byte(sig, 1),
            spec_signature_byte(sig, 2),
            spec_signature_byte(sig, 3),
        ) == sig,
{
    lemma_sum_of_places(sig);
}

/// Packing four bytes and unpacking the signature gives the four bytes back,
/// each in its place.
pub proof fn lemma_pack_then_unpack(a: u8, b: u8, c: u8, d: u8)
    ensures
        0 <= spec_signature_32(a, b, c, d) <= u32::MAX,
        spec_signature_bytes(spec_signature_32(a, b, c, d) as u32) == seq![a, b, c, d],
{
    lemma_places(a as u32, b as u32, c as u32, d as u32);
    let sig = spec_signature_32(a, b, c, d) as u32;
    assert(sig == a as u32 + 256 * (b as u32) + 65536 * (c as u32) + 16777216 * (d as u32));
    assert(spec_signature_byte(sig, 0) == a);
    assert(spec_signature_byte(sig, 1) == b);
    assert(spec_signature_byte(sig, 2) == c);
    assert(spec_signature_byte(sig, 3) == d);
    assert(spec_signature_bytes(sig) =~= seq![a, b, c, d]);
}

/// Packing is sensitive to the order of the bytes: two packings are equal
/// only if they agree byte for byte, position by position.
pub proof fn lemma_packing_is_injective(a: u8, b: u8, c: u8, d: u8, e: u8, f: u8, g: u8, h: u8)
    ensures
        spec_signature_32(a, b, c, d) == spec_signature_32(e, f, g, h) <==> a == e && b == f && c
            == g && d == h,
{
    lemma_pack_then_unpack(a, b, c, d);
    lemma_pack_then_unpack(e, f, g, h);
    if spec_signature_32(a, b, c, d) == spec_signature_32(e, f, g, h) {
        let s = seq![a, b, c, d];
        let t = seq![e, f, g, h];
        assert(s == t);
        assert(s[0] == t[0] && s[1] == t[1] && s[2] == t[2] && s[3] == t[3]);
    }
}

} // verus!
