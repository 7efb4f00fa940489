//! Big-endian integers as they appear in frames.
use vstd::prelude::*;

verus! {

/// The 16-bit big-endian number at `i`.
pub open spec fn be_u16(b: Seq<u8>, i: int) -> u16 {
    (b[i] * 0x100 + b[i + 1]) as u16
}

/// The 24-bit big-endian number at `i`.
pub open spec fn be_u24(b: Seq<u8>, i: int) -> u32 {
    (b[i] * 0x10000 + b[i + 1] * 0x100 + b[i + 2]) as u32
}

/// The 32-bit big-endian number at `i`.
pub open spec fn be_u32(b: Seq<u8>, i: int) -> u32 {
    (b[i] * 0x1000000 + b[i + 1] * 0x10000 + b[i + 2] * 0x100 + b[i + 3]) as u32
}

/// The two bytes of `x`, most significant first.
pub open spec fn u16_bytes(x: u16) -> Seq<u8> {
    seq![(x / 0x100) as u8, (x % 0x100) as u8]
}

/// The low 24 bits of `x`, most significant byte first.
pub open spec fn u24_bytes(x: u32) -> Seq<u8> {
    seq![((x / 0x10000) % 0x100) as u8, ((x / 0x100) % 0x100) as u8, (x % 0x100) as u8]
}

/// The four bytes of `x`, most significant first.
pub open spec fn u32_bytes(x: u32) -> Seq<u8> {
    seq![
        (x / 0x1000000) as u8,
        ((x / 0x10000) % 0x100) as u8,
        ((x / 0x100) % 0x100) as u8,
        (x % 0x100) as u8,
    ]
}

/// Clearing the reserved high bit of a 32-bit word keeps its low 31 bits.
pub proof fn lemma_mask31(x: u32)
    ensures
        x & 0x7FFF_FFFF == x % 0x8000_0000,
        (x & 0x8000_0000 != 0) == (x >= 0x8000_0000),
        (x | 0x8000_0000) % 0x8000_0000 == x % 0x8000_0000,
        (x | 0x8000_0000) >= 0x8000_0000,
{
    assert(x & 0x7FFF_FFFF == x % 0x8000_0000) by (bit_vector);
    assert((x & 0x8000_0000 != 0) == (x >= 0x8000_0000)) by (bit_vector);
    assert((x | 0x8000_0000) % 0x8000_0000 == x % 0x8000_0000) by (bit_vector);
    assert((x | 0x8000_0000) >= 0x8000_0000) by (bit_vector);
}

/// Reading back the bytes of a number gives the number.
pub proof fn lemma_bytes_roundtrip(x16: u16, x24: u32, x32: u32)
    ensures
        be_u16(u16_bytes(x16), 0) == x16,
        be_u24(u24_bytes(x24), 0) == x24 % 0x1000000,
        be_u32(u32_bytes(x32), 0) == x32,
{
    assert((x16 / 0x100) * 0x100 + x16 % 0x100 == x16) by (bit_vector);
    assert(((x24 / 0x10000) % 0x100) * 0x10000 + ((x24 / 0x100) % 0x100) * 0x100 + x24 % 0x100
        == x24 % 0x1000000) by (bit_vector);
    assert((x32 / 0x1000000) * 0x1000000 + ((x32 / 0x10000) % 0x100) * 0x10000 + ((x32 / 0x100)
        % 0x100) * 0x100 + x32 % 0x100 == x32) by (bit_vector);
}

/// The 16-bit big-endian number at `i`.
pub fn read_u16(b: &[u8], i: usize) -> (r: u16)
    requires
        i + 2 <= b@.len(),
    ensures
        r == be_u16(b@, i as int),
{
    (b[i] as u16) * 0x100 + (b[i + 1] as u16)
}

/// The 24-bit big-endian number at `i`.
pub fn read_u24(b: &[u8], i: usize) -> (r: u32)
    requires
        i + 3 <= b@.len(),
    ensures
        r == be_u24(b@, i as int),
        r < 0x1000000,
{
    (b[i] as u32) * 0x10000 + (b[i + 1] as u32) * 0x100 + (b[i + 2] as u32)
}

/// The 32-bit big-endian number at `i`.
pub fn read_u32(b: &[u8], i: usize) -> (r: u32)
    requires
        i + 4 <= b@.len(),
    ensures
        r == be_u32(b@, i as int),
{
    (b[i] as u32) * 0x1000000 + (b[i + 1] as u32) * 0x10000 + (b[i + 2] as u32) * 0x100 + (b[
        i + 3
    ] as u32)
}

/// The bytes of a 16-bit number.
pub fn write_u16(x: u16) -> (r: [u8; 2])
    ensures
        r@ == u16_bytes(x),
{
    let r = [(x / 0x100) as u8, (x % 0x100) as u8];
    assert(r@ =~= u16_bytes(x));
    r
}

/// The bytes of the low 24 bits of a number.
pub fn write_u24(x: u32) -> (r: [u8; 3])
    ensures
        r@ == u24_bytes(x),
{
    let r = [((x / 0x10000) % 0x100) as u8, ((x / 0x100) % 0x100) as u8, (x % 0x100) as u8];
    assert(r@ =~= u24_bytes(x));
    r
}

/// The bytes of a 32-bit number.
pub fn write_u32(x: u32) -> (r: [u8; 4])
    ensures
        r@ == u32_bytes(x),
{
    let r = [
        (x / 0x1000000) as u8,
        ((x / 0x10000) % 0x100) as u8,
        ((x / 0x100) % 0x100) as u8,
        (x % 0x100) as u8,
    ];
    assert(r@ =~= u32_bytes(x));
    r
}

} // verus!
