//! Little-endian encoding of fixed-width integers, as the wire formats use it.

use vstd::prelude::*;

verus! {

/// The two little-endian bytes of `x`.
pub open spec fn u16_le_bytes(x: u16) -> Seq<u8> {
    seq![(x % 256) as u8, (x / 256) as u8]
}

/// The four little-endian bytes of `x`.
pub open spec fn u32_le_bytes(x: u32) -> Seq<u8> {
    seq![
        (x % 256) as u8,
        ((x / 0x100) % 256) as u8,
        ((x / 0x1_0000) % 256) as u8,
        (x / 0x100_0000) as u8,
    ]
}

/// The eight little-endian bytes of `x`.
pub open spec fn u64_le_bytes(x: u64) -> Seq<u8> {
    seq![
        (x % 256) as u8,
        ((x / 0x100) % 256) as u8,
        ((x / 0x1_0000) % 256) as u8,
        ((x / 0x100_0000) % 256) as u8,
        ((x / 0x1_0000_0000) % 256) as u8,
        ((x / 0x100_0000_0000) % 256) as u8,
        ((x / 0x1_0000_0000_0000) % 256) as u8,
        (x / 0x100_0000_0000_0000) as u8,
    ]
}

/// Law: byte `k` of the encoding of `x` is bits `8k .. 8k + 8` of `x`.
pub proof fn lemma_u16_le_bytes_are_shifts(x: u16)
    ensures
        u16_le_bytes(x).len() == 2,
        u16_le_bytes(x)[0] == (x & 0xff) as u8,
        u16_le_bytes(x)[1] == ((x >> 8) & 0xff) as u8,
{
    let b = u16_le_bytes(x);
    assert(b[0] == (x % 256) as u8 && b[1] == (x / 256) as u8);
    assert((x % 256) as u8 == (x & 0xff) as u8 && (x / 256) as u8 == ((x >> 8) & 0xff) as u8)
        by (bit_vector);
}

/// Law: byte `k` of the encoding of `x` is bits `8k .. 8k + 8` of `x`.
pub proof fn lemma_u32_le_bytes_are_shifts(x: u32)
    ensures
        u32_le_bytes(x).len() == 4,
        u32_le_bytes(x)[0] == (x & 0xff) as u8,
        u32_le_bytes(x)[1] == ((x >> 8) & 0xff) as u8,
        u32_le_bytes(x)[2] == ((x >> 16) & 0xff) as u8,
        u32_le_bytes(x)[3] == ((x >> 24) & 0xff) as u8,
{
    let b = u32_le_bytes(x);
    assert(b[0] == (x % 256) as u8 && b[1] == ((x / 0x100) % 256) as u8);
    assert(b[2] == ((x / 0x1_0000) % 256) as u8 && b[3] == (x / 0x100_0000) as u8);
    assert((x % 256) as u8 == (x & 0xff) as u8 && ((x / 0x100) % 256) as u8 == ((x >> 8) & 0xff) as u8
        && ((x / 0x1_0000) % 256) as u8 == ((x >> 16) & 0xff) as u8 && (x / 0x100_0000) as u8 == ((x
        >> 24) & 0xff) as u8) by (bit_vector);
}

/// Law: byte `k` of the encoding of `x` is bits `8k .. 8k + 8` of `x`.
pub proof fn lemma_u64_le_bytes_are_shifts(x: u64)
    ensures
        u64_le_bytes(x).len() == 8,
        u64_le_bytes(x)[0] == (x & 0xff) as u8,
        u64_le_bytes(x)[1] == ((x >> 8) & 0xff) as u8,
        u64_le_bytes(x)[2] == ((x >> 16) & 0xff) as u8,
        u64_le_bytes(x)[3] == ((x >> 24) & 0xff) as u8,
        u64_le_bytes(x)[4] == ((x >> 32) & 0xff) as u8,
        u64_le_bytes(x)[5] == ((x >> 40) & 0xff) as u8,
        u64_le_bytes(x)[6] == ((x >> 48) & 0xff) as u8,
        u64_le_bytes(x)[7] == ((x >> 56) & 0xff) as u8,
{
    let b = u64_le_bytes(x);
    assert(b[0] == (x % 256) as u8 && b[1] == ((x / 0x100) % 256) as u8);
    assert(b[2] == ((x / 0x1_0000) % 256) as u8 && b[3] == ((x / 0x100_0000) % 256) as u8);
    assert(b[4] == ((x / 0x1_0000_0000) % 256) as u8 && b[5] == ((x / 0x100_0000_0000) % 256) as u8);
    assert(b[6] == ((x / 0x1_0000_0000_0000) % 256) as u8 && b[7] == (x / 0x100_0000_0000_0000) as u8);
    assert((x % 256) as u8 == (x & 0xff) as u8 && ((x / 0x100) % 256) as u8 == ((x >> 8) & 0xff) as u8
        && ((x / 0x1_0000) % 256) as u8 == ((x >> 16) & 0xff) as u8 && ((x / 0x100_0000) % 256) as u8
        == ((x >> 24) & 0xff) as u8) by (bit_vector);
    assert(((x / 0x1_0000_0000) % 256) as u8 == ((x >> 32) & 0xff) as u8 && ((x / 0x100_0000_0000)
        % 256) as u8 == ((x >> 40) & 0xff) as u8 && ((x / 0x1_0000_0000_0000) % 256) as u8 == ((x
        >> 48) & 0xff) as u8 && (x / 0x100_0000_0000_0000) as u8 == ((x >> 56) & 0xff) as u8)
        by (bit_vector);
}

/// The value whose little-endian bytes are `b0, b1`.
pub open spec fn u16_from_le(b0: u8, b1: u8) -> u16 {
    (b0 + 256 * b1) as u16
}

/// The value whose little-endian bytes are `b0 .. b3`.
pub open spec fn u32_from_le(b0: u8, b1: u8, b2: u8, b3: u8) -> u32 {
    (b0 + 0x100 * b1 + 0x1_0000 * b2 + 0x100_0000 * b3) as u32
}

/// Decoding the encoding of a value gives the value back.
pub proof fn lemma_u16_le_roundtrip(x: u16)
    ensures
        u16_from_le(u16_le_bytes(x)[0], u16_le_bytes(x)[1]) == x,
{
}

/// Decoding the encoding of a value gives the value back.
pub proof fn lemma_u32_le_roundtrip(x: u32)
    ensures
        ({
            let b = u32_le_bytes(x);
            u32_from_le(b[0], b[1], b[2], b[3]) == x
        }),
{
}

/// Two values with the same little-endian bytes are the same value.
pub proof fn lemma_u64_le_injective(a: u64, b: u64)
    requires
        u64_le_bytes(a) == u64_le_bytes(b),
    ensures
        a == b,
{
    let x = u64_le_bytes(a);
    let y = u64_le_bytes(b);
    assert(x[0] == y[0] && x[1] == y[1] && x[2] == y[2] && x[3] == y[3]);
    assert(x[4] == y[4] && x[5] == y[5] && x[6] == y[6] && x[7] == y[7]);
    assert(a == b) by (bit_vector)
        requires
            a % 256 == b % 256,
            (a / 0x100) % 256 == (b / 0x100) % 256,
            (a / 0x1_0000) % 256 == (b / 0x1_0000) % 256,
            (a / 0x100_0000) % 256 == (b / 0x100_0000) % 256,
            (a / 0x1_0000_0000) % 256 == (b / 0x1_0000_0000) % 256,
            (a / 0x100_0000_0000) % 256 == (b / 0x100_0000_0000) % 256,
            (a / 0x1_0000_0000_0000) % 256 == (b / 0x1_0000_0000_0000) % 256,
            a / 0x100_0000_0000_0000 == b / 0x100_0000_0000_0000,
    ;
}

/// Encoding a decoded value gives the bytes back.
pub proof fn lemma_u16_from_le_roundtrip(b0: u8, b1: u8)
    ensures
        u16_le_bytes(u16_from_le(b0, b1)) == seq![b0, b1],
{
    assert(u16_le_bytes(u16_from_le(b0, b1)) =~= seq![b0, b1]);
}

/// Encoding a decoded value gives the bytes back.
pub proof fn lemma_u32_from_le_roundtrip(b0: u8, b1: u8, b2: u8, b3: u8)
    ensures
        u32_le_bytes(u32_from_le(b0, b1, b2, b3)) == seq![b0, b1, b2, b3],
{
    let x = u32_from_le(b0, b1, b2, b3);
    assert(x % 256 == b0 && (x / 0x100) % 256 == b1 && (x / 0x1_0000) % 256 == b2 && x / 0x100_0000
        == b3) by (bit_vector)
        requires
            x == (b0 + 0x100 * b1 + 0x1_0000 * b2 + 0x100_0000 * b3) as u32,
    ;
    assert(u32_le_bytes(x) =~= seq![b0, b1, b2, b3]);
}

/// The little-endian bytes of `x`.
pub fn u16_to_le(x: u16) -> (b: [u8; 2])
    ensures
        b@ == u16_le_bytes(x),
{
    let b0 = (x & 0xff) as u8;
    let b1 = (x >> 8) as u8;
    assert(b0 == x % 256 && b1 == x / 256) by (bit_vector)
        requires
            b0 == (x & 0xff) as u8,
            b1 == (x >> 8) as u8,
    ;
    let b = [b0, b1];
    assert(b@ =~= u16_le_bytes(x));
    b
}

/// The little-endian bytes of `x`.
pub fn u32_to_le(x: u32) -> (b: [u8; 4])
    ensures
        b@ == u32_le_bytes(x),
{
    let b0 = (x & 0xff) as u8;
    let b1 = ((x >> 8) & 0xff) as u8;
    let b2 = ((x >> 16) & 0xff) as u8;
    let b3 = (x >> 24) as u8;
    assert(b0 == x % 256 && b1 == (x / 0x100) % 256 && b2 == (x / 0x1_0000) % 256 && b3 == x
        / 0x100_0000) by (bit_vector)
        requires
            b0 == (x & 0xff) as u8,
            b1 == ((x >> 8) & 0xff) as u8,
            b2 == ((x >> 16) & 0xff) as u8,
            b3 == (x >> 24) as u8,
    ;
    let b = [b0, b1, b2, b3];
    assert(b@ =~= u32_le_bytes(x));
    b
}

/// The little-endian bytes of `x`.
pub fn u64_to_le(x: u64) -> (b: [u8; 8])
    ensures
        b@ == u64_le_bytes(x),
{
    let b0 = (x & 0xff) as u8;
    let b1 = ((x >> 8) & 0xff) as u8;
    let b2 = ((x >> 16) & 0xff) as u8;
    let b3 = ((x >> 24) & 0xff) as u8;
    let b4 = ((x >> 32) & 0xff) as u8;
    let b5 = ((x >> 40) & 0xff) as u8;
    let b6 = ((x >> 48) & 0xff) as u8;
    let b7 = (x >> 56) as u8;
    assert(b0 == x % 256 && b1 == (x / 0x100) % 256 && b2 == (x / 0x1_0000) % 256 && b3 == (x
        / 0x100_0000) % 256) by (bit_vector)
        requires
            b0 == (x & 0xff) as u8,
            b1 == ((x >> 8) & 0xff) as u8,
            b2 == ((x >> 16) & 0xff) as u8,
            b3 == ((x >> 24) & 0xff) as u8,
    ;
    assert(b4 == (x / 0x1_0000_0000) % 256 && b5 == (x / 0x100_0000_0000) % 256 && b6 == (x
        / 0x1_0000_0000_0000) % 256 && b7 == x / 0x100_0000_0000_0000) by (bit_vector)
        requires
            b4 == ((x >> 32) & 0xff) as u8,
            b5 == ((x >> 40) & 0xff) as u8,
            b6 == ((x >> 48) & 0xff) as u8,
            b7 == (x >> 56) as u8,
    ;
    let b = [b0, b1, b2, b3, b4, b5, b6, b7];
    assert(b@ =~= u64_le_bytes(x));
    b
}

/// The value whose little-endian bytes are `b0, b1`.
pub fn le_u16(b0: u8, b1: u8) -> (x: u16)
    ensures
        x == u16_from_le(b0, b1),
{
    let x = (b0 as u16) | ((b1 as u16) << 8);
    assert(x == b0 + 256 * b1) by (bit_vector)
        requires
            x == (b0 as u16) | ((b1 as u16) << 8),
    ;
    x
}

/// The value whose little-endian bytes are `b0 .. b3`.
pub fn le_u32(b0: u8, b1: u8, b2: u8, b3: u8) -> (x: u32)
    ensures
        x == u32_from_le(b0, b1, b2, b3),
{
    let x = (b0 as u32) | ((b1 as u32) << 8) | ((b2 as u32) << 16) | ((b3 as u32) << 24);
    assert(x == b0 + 0x100 * b1 + 0x1_0000 * b2 + 0x100_0000 * b3) by (bit_vector)
        requires
            x == (b0 as u32) | ((b1 as u32) << 8) | ((b2 as u32) << 16) | ((b3 as u32) << 24),
    ;
    x
}

} // verus!
