//! Fixed-width integers as they lie in a byte buffer, in either byte order.

use byteorder::{BigEndian, ByteOrder, LittleEndian};
use vstd::prelude::*;

verus! {

/// Value of two bytes, most significant first.
pub open spec fn be16(s: Seq<u8>) -> int {
    s[0] as int * 0x100 + s[1] as int
}

/// Value of four bytes, most significant first.
pub open spec fn be32(s: Seq<u8>) -> int {
    ((s[0] as int * 0x100 + s[1] as int) * 0x100 + s[2] as int) * 0x100 + s[3] as int
}

/// Value of eight bytes, most significant first.
pub open spec fn be64(s: Seq<u8>) -> int {
    be32(s.subrange(0, 4)) * 0x1_0000_0000 + be32(s.subrange(4, 8))
}

/// Value of two bytes, least significant first.
pub open spec fn le16(s: Seq<u8>) -> int {
    s[0] as int + s[1] as int * 0x100
}

/// Value of four bytes, least significant first.
pub open spec fn le32(s: Seq<u8>) -> int {
    s[0] as int + (s[1] as int + (s[2] as int + s[3] as int * 0x100) * 0x100) * 0x100
}

/// Value of eight bytes, least significant first.
pub open spec fn le64(s: Seq<u8>) -> int {
    le32(s.subrange(0, 4)) + le32(s.subrange(4, 8)) * 0x1_0000_0000
}

/// Two's-complement reading of an unsigned value below `2 * half`.
pub open spec fn signed(v: int, half: int) -> int {
    if v < half {
        v
    } else {
        v - 2 * half
    }
}

/// `byteorder::BigEndian::read_u16`: the first two bytes of `buf` as a
/// big-endian number. The call panics on a shorter buffer.
#[verifier::external_body]
pub(crate) fn be_u16(buf: &[u8]) -> (r: u16)
    requires
        buf@.len() >= 2,
    ensures
        r as int == be16(buf@),
{
    BigEndian::read_u16(buf)
}

/// `byteorder::BigEndian::read_u32`: the first four bytes of `buf` as a
/// big-endian number. The call panics on a shorter buffer.
#[verifier::external_body]
pub(crate) fn be_u32(buf: &[u8]) -> (r: u32)
    requires
        buf@.len() >= 4,
    ensures
        r as int == be32(buf@),
{
    BigEndian::read_u32(buf)
}

/// `byteorder::BigEndian::read_u64`: the first eight bytes of `buf` as a
/// big-endian number. The call panics on a shorter buffer.
#[verifier::external_body]
pub(crate) fn be_u64(buf: &[u8]) -> (r: u64)
    requires
        buf@.len() >= 8,
    ensures
        r as int == be64(buf@),
{
    BigEndian::read_u64(buf)
}

/// `byteorder::BigEndian::read_i16`: the big-endian number in the first two
/// bytes, read as two's complement. The call panics on a shorter buffer.
#[verifier::external_body]
pub(crate) fn be_i16(buf: &[u8]) -> (r: i16)
    requires
        buf@.len() >= 2,
    ensures
        r as int == signed(be16(buf@), 0x8000),
{
    BigEndian::read_i16(buf)
}

/// `byteorder::BigEndian::read_i32`: the big-endian number in the first four
/// bytes, read as two's complement. The call panics on a shorter buffer.
#[verifier::external_body]
pub(crate) fn be_i32(buf: &[u8]) -> (r: i32)
    requires
        buf@.len() >= 4,
    ensures
        r as int == signed(be32(buf@), 0x8000_0000),
{
    BigEndian::read_i32(buf)
}

/// `byteorder::BigEndian::read_i64`: the big-endian number in the first eight
/// bytes, read as two's complement. The call panics on a shorter buffer.
#[verifier::external_body]
pub(crate) fn be_i64(buf: &[u8]) -> (r: i64)
    requires
        buf@.len() >= 8,
    ensures
        r as int == signed(be64(buf@), 0x8000_0000_0000_0000),
{
    BigEndian::read_i64(buf)
}

/// `byteorder::LittleEndian::read_u16`: the first two bytes of `buf` as a
/// little-endian number. The call panics on a shorter buffer.
#[verifier::external_body]
pub(crate) fn le_u16(buf: &[u8]) -> (r: u16)
    requires
        buf@.len() >= 2,
    ensures
        r as int == le16(buf@),
{
    LittleEndian::read_u16(buf)
}

/// `byteorder::LittleEndian::read_u32`: the first four bytes of `buf` as a
/// little-endian number. The call panics on a shorter buffer.
#[verifier::external_body]
pub(crate) fn le_u32(buf: &[u8]) -> (r: u32)
    requires
        buf@.len() >= 4,
    ensures
        r as int == le32(buf@),
{
    LittleEndian::read_u32(buf)
}

/// `byteorder::LittleEndian::read_u64`: the first eight bytes of `buf` as a
/// little-endian number. The call panics on a shorter buffer.
#[verifier::external_body]
pub(crate) fn le_u64(buf: &[u8]) -> (r: u64)
    requires
        buf@.len() >= 8,
    ensures
        r as int == le64(buf@),
{
    LittleEndian::read_u64(buf)
}

/// `byteorder::LittleEndian::read_i16`: the little-endian number in the first
/// two bytes, read as two's complement. The call panics on a shorter buffer.
#[verifier::external_body]
pub(crate) fn le_i16(buf: &[u8]) -> (r: i16)
    requires
        buf@.len() >= 2,
    ensures
        r as int == signed(le16(buf@), 0x8000),
{
    LittleEndian::read_i16(buf)
}

/// `byteorder::LittleEndian::read_i32`: the little-endian number in the first
/// four bytes, read as two's complement. The call panics on a shorter buffer.
#[verifier::external_body]
pub(crate) fn le_i32(buf: &[u8]) -> (r: i32)
    requires
        buf@.len() >= 4,
    ensures
        r as int == signed(le32(buf@), 0x8000_0000),
{
    LittleEndian::read_i32(buf)
}

/// `byteorder::LittleEndian::read_i64`: the little-endian number in the first
/// eight bytes, read as two's complement. The call panics on a shorter buffer.
#[verifier::external_body]
pub(crate) fn le_i64(buf: &[u8]) -> (r: i64)
    requires
        buf@.len() >= 8,
    ensures
        r as int == signed(le64(buf@), 0x8000_0000_0000_0000),
{
    LittleEndian::read_i64(buf)
}

/// A field read in one byte order has the value that the same bytes in
/// reverse have in the other order.
pub proof fn byte_order_mirror(s: Seq<u8>)
    ensures
        s.len() == 2 ==> le16(s) == be16(s.reverse()),
        s.len() == 4 ==> le32(s) == be32(s.reverse()),
        s.len() == 8 ==> le64(s) == be64(s.reverse()),
{
    if s.len() == 8 {
        let r = s.reverse();
        assert(r.subrange(0, 4) =~= s.subrange(4, 8).reverse());
        assert(r.subrange(4, 8) =~= s.subrange(0, 4).reverse());
    }
}

} // verus!
