//! Little-endian binary serialization of fixed-width integers.

use vstd::prelude::*;

verus! {

/// The value of the little-endian unsigned 32-bit integer in the first four bytes.
pub open spec fn le_value32(b: Seq<u8>) -> int {
    b[0] as int + 256 * b[1] as int + 65536 * b[2] as int + 16777216 * b[3] as int
}

/// The value of the little-endian unsigned 16-bit integer in the first two bytes.
pub open spec fn le_value16(b: Seq<u8>) -> int {
    b[0] as int + 256 * b[1] as int
}

/// The four little-endian bytes of a 32-bit unsigned value.
pub open spec fn le_bytes32(v: u32) -> Seq<u8> {
    seq![(v % 256) as u8, (v / 256 % 256) as u8, (v / 65536 % 256) as u8, (v / 16777216) as u8]
}

/// The two little-endian bytes of a 16-bit unsigned value.
pub open spec fn le_bytes16(v: u16) -> Seq<u8> {
    seq![(v % 256) as u8, (v / 256) as u8]
}

/// The little-endian bytes of a value read back give the value.
pub proof fn lemma_le_bytes_roundtrip()
    ensures
        forall|v: u32| #[trigger] le_bytes32(v).len() == 4 && le_value32(le_bytes32(v)) == v,
        forall|v: u16| #[trigger] le_bytes16(v).len() == 2 && le_value16(le_bytes16(v)) == v,
{
    assert forall|v: u32| #[trigger] le_bytes32(v).len() == 4 && le_value32(le_bytes32(v)) == v by {
        let b = le_bytes32(v);
        assert(b[0] == v % 256 && b[1] == v / 256 % 256 && b[2] == v / 65536 % 256 && b[3] == v / 16777216);
        assert(v % 256 + 256 * (v / 256 % 256) + 65536 * (v / 65536 % 256) + 16777216 * (v / 16777216) == v)
            by (nonlinear_arith);
    }
    assert forall|v: u16| #[trigger] le_bytes16(v).len() == 2 && le_value16(le_bytes16(v)) == v by {
        let b = le_bytes16(v);
        assert(b[0] == v % 256 && b[1] == v / 256);
    }
}

/// The little-endian bytes of a 32-bit unsigned value.
pub fn le_bytes_u32(v: u32) -> (r: Vec<u8>)
    ensures
        r@ == le_bytes32(v),
{
    let b0 = (v & 0xff) as u8;
    let b1 = ((v >> 8) & 0xff) as u8;
    let b2 = ((v >> 16) & 0xff) as u8;
    let b3 = (v >> 24) as u8;
    assert(b0 == (v % 256) as u8 && b1 == (v / 256 % 256) as u8 && b2 == (v / 65536 % 256) as u8
        && b3 == (v / 16777216) as u8) by (bit_vector)
        requires
            b0 == (v & 0xff) as u8,
            b1 == ((v >> 8) & 0xff) as u8,
            b2 == ((v >> 16) & 0xff) as u8,
            b3 == (v >> 24) as u8,
    ;
    let r = vec![b0, b1, b2, b3];
    assert(r@ =~= le_bytes32(v));
    r
}

/// The little-endian bytes of a 16-bit unsigned value.
pub fn le_bytes_u16(v: u16) -> (r: Vec<u8>)
    ensures
        r@ == le_bytes16(v),
{
    let b0 = (v & 0xff) as u8;
    let b1 = (v >> 8) as u8;
    assert(b0 == (v % 256) as u8 && b1 == (v / 256) as u8) by (bit_vector)
        requires
            b0 == (v & 0xff) as u8,
            b1 == (v >> 8) as u8,
    ;
    let r = vec![b0, b1];
    assert(r@ =~= le_bytes16(v));
    r
}

/// Two's-complement reading of a 32-bit unsigned value.
pub open spec fn signed32(v: int) -> int {
    if v >= 0x8000_0000 {
        v - 0x1_0000_0000
    } else {
        v
    }
}

/// Two's-complement reading of a 16-bit unsigned value.
pub open spec fn signed16(v: int) -> int {
    if v >= 0x8000 {
        v - 0x1_0000
    } else {
        v
    }
}

/// Unsigned 32-bit pattern of a signed value.
pub open spec fn unsigned32(v: int) -> int {
    if v < 0 {
        v + 0x1_0000_0000
    } else {
        v
    }
}

/// Unsigned 16-bit pattern of a signed value.
pub open spec fn unsigned16(v: int) -> int {
    if v < 0 {
        v + 0x1_0000
    } else {
        v
    }
}

/// Write a u32 in little-endian format.
pub fn write_u32(buf: &mut [u8], value: u32)
    requires
        old(buf)@.len() >= 4,
    ensures
        final(buf)@.len() == old(buf)@.len(),
        le_value32(final(buf)@) == value as int,
        forall|i: int| 4 <= i < old(buf)@.len() ==> final(buf)@[i] == old(buf)@[i],
{
    let b0 = (value & 0xff) as u8;
    let b1 = ((value >> 8) & 0xff) as u8;
    let b2 = ((value >> 16) & 0xff) as u8;
    let b3 = ((value >> 24) & 0xff) as u8;
    assert(value as int == b0 as int + 256 * b1 as int + 65536 * b2 as int + 16777216 * b3 as int)
        by (bit_vector)
        requires
            b0 == (value & 0xff) as u8,
            b1 == ((value >> 8) & 0xff) as u8,
            b2 == ((value >> 16) & 0xff) as u8,
            b3 == ((value >> 24) & 0xff) as u8,
    ;
    buf[0] = b0;
    buf[1] = b1;
    buf[2] = b2;
    buf[3] = b3;
}

/// Read a u32 in little-endian format.
pub fn read_u32(buf: &[u8]) -> (r: u32)
    requires
        buf@.len() >= 4,
    ensures
        r as int == le_value32(buf@),
{
    let b0 = buf[0];
    let b1 = buf[1];
    let b2 = buf[2];
    let b3 = buf[3];
    let r = (b0 as u32) | ((b1 as u32) << 8) | ((b2 as u32) << 16) | ((b3 as u32) << 24);
    assert(r as int == b0 as int + 256 * b1 as int + 65536 * b2 as int + 16777216 * b3 as int)
        by (bit_vector)
        requires
            r == (b0 as u32) | ((b1 as u32) << 8) | ((b2 as u32) << 16) | ((b3 as u32) << 24),
    ;
    r
}

/// Write an i32 in little-endian (two's-complement) format.
pub fn write_i32(buf: &mut [u8], value: i32)
    requires
        old(buf)@.len() >= 4,
    ensures
        final(buf)@.len() == old(buf)@.len(),
        le_value32(final(buf)@) == unsigned32(value as int),
        forall|i: int| 4 <= i < old(buf)@.len() ==> final(buf)@[i] == old(buf)@[i],
{
    let u = value as u32;
    assert(u as int == unsigned32(value as int)) by (bit_vector)
        requires
            u == value as u32,
    ;
    write_u32(buf, u);
}

/// Read an i32 in little-endian (two's-complement) format.
pub fn read_i32(buf: &[u8]) -> (r: i32)
    requires
        buf@.len() >= 4,
    ensures
        r as int == signed32(le_value32(buf@)),
{
    let u = read_u32(buf);
    let r = u as i32;
    assert(r as int == signed32(u as int)) by (bit_vector)
        requires
            r == u as i32,
    ;
    r
}

/// Write a u16 in little-endian format.
pub fn write_u16(buf: &mut [u8], value: u16)
    requires
        old(buf)@.len() >= 2,
    ensures
        final(buf)@.len() == old(buf)@.len(),
        le_value16(final(buf)@) == value as int,
        forall|i: int| 2 <= i < old(buf)@.len() ==> final(buf)@[i] == old(buf)@[i],
{
    let b0 = (value & 0xff) as u8;
    let b1 = ((value >> 8) & 0xff) as u8;
    assert(value as int == b0 as int + 256 * b1 as int) by (bit_vector)
        requires
            b0 == (value & 0xff) as u8,
            b1 == ((value >> 8) & 0xff) as u8,
    ;
    buf[0] = b0;
    buf[1] = b1;
}

/// Read a u16 in little-endian format.
pub fn read_u16(buf: &[u8]) -> (r: u16)
    requires
        buf@.len() >= 2,
    ensures
        r as int == le_value16(buf@),
{
    let b0 = buf[0];
    let b1 = buf[1];
    let r = (b0 as u16) | ((b1 as u16) << 8);
    assert(r as int == b0 as int + 256 * b1 as int) by (bit_vector)
        requires
            r == (b0 as u16) | ((b1 as u16) << 8),
    ;
    r
}

/// Write an i16 in little-endian (two's-complement) format.
pub fn write_i16(buf: &mut [u8], value: i16)
    requires
        old(buf)@.len() >= 2,
    ensures
        final(buf)@.len() == old(buf)@.len(),
        le_value16(final(buf)@) == unsigned16(value as int),
        forall|i: int| 2 <= i < old(buf)@.len() ==> final(buf)@[i] == old(buf)@[i],
{
    let u = value as u16;
    assert(u as int == unsigned16(value as int)) by (bit_vector)
        requires
            u == value as u16,
    ;
    write_u16(buf, u);
}

/// Read an i16 in little-endian (two's-complement) format.
pub fn read_i16(buf: &[u8]) -> (r: i16)
    requires
        buf@.len() >= 2,
    ensures
        r as int == signed16(le_value16(buf@)),
{
    let u = read_u16(buf);
    let r = u as i16;
    assert(r as int == signed16(u as int)) by (bit_vector)
        requires
            r == u as i16,
    ;
    r
}

/// Reading the bytes produced for a signed value gives the value back.
pub proof fn lemma_signed32_roundtrip(v: i32)
    ensures
        signed32(unsigned32(v as int)) == v as int,
{
}

/// Reading the bytes produced for a signed 16-bit value gives the value back.
pub proof fn lemma_signed16_roundtrip(v: i16)
    ensures
        signed16(unsigned16(v as int)) == v as int,
{
}

} // verus!
