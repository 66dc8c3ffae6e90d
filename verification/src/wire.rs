//! The byte-level layout of the primitives as spec functions: what a read at
//! a position of a buffer yields, and where the cursor stands afterwards.

use crate::asset::Endianness;
use crate::endian::{be16, be32, be64, byte_order_mirror, le16, le32, le64, signed};
use crate::version::{UnityVersion, VersionParseError};
use vstd::prelude::*;

verus! {

/// The two ways a cursor operation fails.
#[derive(Clone, Copy, Debug, PartialEq, Eq, Structural)]
pub enum IoFault {
    /// Fewer bytes are left than the read needs.
    UnexpectedEof,
    /// The target of a seek is negative or beyond the largest position.
    InvalidSeek,
}

/// The mathematical value of a decoding failure.
pub enum Failure {
    MissingType(i32),
    IO(IoFault),
    UnsupportedFileVersion(u32),
    UnsupportedUnityVersion(UnityVersion),
    UnsupportedFeature(Seq<char>),
    InvalidVersion(VersionParseError),
    DeserializationError(Seq<char>),
}

/// Outcome of decoding at a position: the value and the position behind it,
/// or the failure.
pub type Wire<T> = Result<(T, nat), Failure>;

/// The failure of a read that runs past the end of the buffer.
pub open spec fn eof() -> Failure {
    Failure::IO(IoFault::UnexpectedEof)
}

/// The failure of a seek or an alignment that leaves the positions.
pub open spec fn bad_seek() -> Failure {
    Failure::IO(IoFault::InvalidSeek)
}

/// Each byte as the character with that code point.
pub open spec fn latin1(bytes: Seq<u8>) -> Seq<char> {
    bytes.map_values(|b: u8| b as char)
}

/// `n` raw bytes. Reading no bytes succeeds at any position.
#[verifier::opaque]
pub open spec fn wire_bytes(data: Seq<u8>, pos: nat, n: nat) -> Wire<Seq<u8>> {
    if n == 0 {
        Ok((Seq::empty(), pos))
    } else if pos + n <= data.len() {
        Ok((data.subrange(pos as int, (pos + n) as int), pos + n))
    } else {
        Err(eof())
    }
}

#[verifier::opaque]

/// One byte.
pub open spec fn wire_u8(data: Seq<u8>, pos: nat) -> Wire<u8> {
    if pos < data.len() {
        Ok((data[pos as int], pos + 1))
    } else {
        Err(eof())
    }
}

/// One byte; true exactly for the byte 1.
#[verifier::opaque]
pub open spec fn wire_bool(data: Seq<u8>, pos: nat) -> Wire<bool> {
    if pos < data.len() {
        Ok((data[pos as int] == 1, pos + 1))
    } else {
        Err(eof())
    }
}

/// Unsigned value of the two bytes `s` in the byte order `e`.
pub open spec fn value16(s: Seq<u8>, e: Endianness) -> int {
    match e {
        Endianness::Big => be16(s),
        Endianness::Little => le16(s),
    }
}

/// Unsigned value of the four bytes `s` in the byte order `e`.
pub open spec fn value32(s: Seq<u8>, e: Endianness) -> int {
    match e {
        Endianness::Big => be32(s),
        Endianness::Little => le32(s),
    }
}

/// Unsigned value of the eight bytes `s` in the byte order `e`.
pub open spec fn value64(s: Seq<u8>, e: Endianness) -> int {
    match e {
        Endianness::Big => be64(s),
        Endianness::Little => le64(s),
    }
}

#[verifier::opaque]

/// Two bytes as an unsigned number.
pub open spec fn wire_u16(data: Seq<u8>, endian: Endianness, pos: nat) -> Wire<u16> {
    if pos + 2 <= data.len() {
        Ok((value16(data.subrange(pos as int, (pos + 2) as int), endian) as u16, pos + 2))
    } else {
        Err(eof())
    }
}

#[verifier::opaque]

/// Two bytes as a two's-complement number.
pub open spec fn wire_i16(data: Seq<u8>, endian: Endianness, pos: nat) -> Wire<i16> {
    if pos + 2 <= data.len() {
        Ok((signed(value16(data.subrange(pos as int, (pos + 2) as int), endian), 0x8000) as i16, pos + 2))
    } else {
        Err(eof())
    }
}

#[verifier::opaque]

/// Four bytes as an unsigned number.
pub open spec fn wire_u32(data: Seq<u8>, endian: Endianness, pos: nat) -> Wire<u32> {
    if pos + 4 <= data.len() {
        Ok((value32(data.subrange(pos as int, (pos + 4) as int), endian) as u32, pos + 4))
    } else {
        Err(eof())
    }
}

#[verifier::opaque]

/// Four bytes as a two's-complement number.
pub open spec fn wire_i32(data: Seq<u8>, endian: Endianness, pos: nat) -> Wire<i32> {
    if pos + 4 <= data.len() {
        Ok(
            (
                signed(value32(data.subrange(pos as int, (pos + 4) as int), endian), 0x8000_0000) as i32,
                pos + 4,
            ),
        )
    } else {
        Err(eof())
    }
}

#[verifier::opaque]

/// Eight bytes as an unsigned number.
pub open spec fn wire_u64(data: Seq<u8>, endian: Endianness, pos: nat) -> Wire<u64> {
    if pos + 8 <= data.len() {
        Ok((value64(data.subrange(pos as int, (pos + 8) as int), endian) as u64, pos + 8))
    } else {
        Err(eof())
    }
}

#[verifier::opaque]

/// Eight bytes as a two's-complement number.
pub open spec fn wire_i64(data: Seq<u8>, endian: Endianness, pos: nat) -> Wire<i64> {
    if pos + 8 <= data.len() {
        Ok(
            (
                signed(
                    value64(data.subrange(pos as int, (pos + 8) as int), endian),
                    0x8000_0000_0000_0000,
                ) as i64,
                pos + 8,
            ),
        )
    } else {
        Err(eof())
    }
}

/// The next multiple of 4 at or after `pos`.
pub open spec fn aligned(pos: nat) -> nat {
    if pos % 4 == 0 {
        pos
    } else {
        (pos + 4 - pos % 4) as nat
    }
}

/// Moving the cursor to the next multiple of 4, which must be a position.
#[verifier::opaque]
pub open spec fn wire_align(pos: nat) -> Wire<()> {
    if aligned(pos) <= u64::MAX {
        Ok(((), aligned(pos)))
    } else {
        Err(bad_seek())
    }
}

/// A `u32` length and that many raw bytes.
#[verifier::opaque]
pub open spec fn wire_byte_array(data: Seq<u8>, endian: Endianness, pos: nat) -> Wire<Seq<u8>> {
    match wire_u32(data, endian, pos) {
        Err(e) => Err(e),
        Ok((n, p)) => wire_bytes(data, p, n as nat),
    }
}

/// A length-prefixed string of 8-bit characters, then alignment.
#[verifier::opaque]
pub open spec fn wire_char_array(data: Seq<u8>, endian: Endianness, pos: nat) -> Wire<Seq<char>> {
    match wire_byte_array(data, endian, pos) {
        Err(e) => Err(e),
        Ok((bytes, p)) => match wire_align(p) {
            Err(e) => Err(e),
            Ok((_, q)) => Ok((latin1(bytes), q)),
        },
    }
}

/// Index of the first zero byte at or after `from`, or a value that is no
/// index where there is none.
pub open spec fn first_zero(data: Seq<u8>, from: nat) -> nat
    decreases data.len() - from,
{
    if from >= data.len() || data[from as int] == 0 {
        from
    } else {
        first_zero(data, from + 1)
    }
}

/// The characters up to the next zero byte; the zero is consumed.
#[verifier::opaque]
pub open spec fn wire_cstring(data: Seq<u8>, pos: nat) -> Wire<Seq<char>> {
    let z = first_zero(data, pos);
    if z < data.len() {
        Ok((latin1(data.subrange(pos as int, z as int)), z + 1))
    } else {
        Err(eof())
    }
}

/// `first_zero` finds a zero byte or runs off the buffer, and passes no
/// zero byte on the way.
pub proof fn first_zero_is_first(data: Seq<u8>, from: nat)
    ensures
        from <= first_zero(data, from),
        first_zero(data, from) < data.len() ==> data[first_zero(data, from) as int] == 0,
        forall|i: int| from <= i < first_zero(data, from) && i < data.len() ==> data[i] != 0,
    decreases data.len() - from,
{
    if !(from >= data.len() || data[from as int] == 0) {
        first_zero_is_first(data, from + 1);
    }
}

/// `n` items one after the other, each decoded by `item` at the position
/// the one before left.
pub open spec fn wire_repeat<V>(item: spec_fn(nat) -> Wire<V>, pos: nat, n: nat) -> Wire<Seq<V>>
    decreases n,
{
    if n == 0 {
        Ok((Seq::empty(), pos))
    } else {
        match wire_repeat(item, pos, (n - 1) as nat) {
            Err(e) => Err(e),
            Ok((items, p)) => match item(p) {
                Err(e) => Err(e),
                Ok((x, q)) => Ok((items.push(x), q)),
            },
        }
    }
}

/// A failure among the first `i` items is the failure of any longer run.
pub proof fn wire_repeat_fail<V>(item: spec_fn(nat) -> Wire<V>, pos: nat, i: nat, n: nat)
    requires
        i <= n,
        wire_repeat(item, pos, i) is Err,
    ensures
        wire_repeat(item, pos, n) == wire_repeat(item, pos, i),
    decreases n,
{
    if i < n {
        wire_repeat_fail(item, pos, i, (n - 1) as nat);
    }
}

/// Moving the cursor `n` bytes on, whether or not the buffer holds them.
#[verifier::opaque]
pub open spec fn wire_skip(pos: nat, n: nat) -> Wire<()> {
    if pos + n <= u64::MAX {
        Ok(((), pos + n))
    } else {
        Err(bad_seek())
    }
}

/// The decoder of `u32` elements for a buffer and byte order.
pub open spec fn u32_at(data: Seq<u8>, endian: Endianness) -> spec_fn(nat) -> Wire<u32> {
    |pos: nat| wire_u32(data, endian, pos)
}

/// The decoder of `u16` elements for a buffer and byte order.
pub open spec fn u16_at(data: Seq<u8>, endian: Endianness) -> spec_fn(nat) -> Wire<u16> {
    |pos: nat| wire_u16(data, endian, pos)
}

/// An array of `u32`: a `u32` count, then the elements. No alignment
/// follows.
#[verifier::opaque]
pub open spec fn wire_u32_array(data: Seq<u8>, endian: Endianness, pos: nat) -> Wire<Seq<u32>> {
    match wire_u32(data, endian, pos) {
        Err(e) => Err(e),
        Ok((n, p)) => wire_repeat(u32_at(data, endian), p, n as nat),
    }
}

/// An array of `u16`: a `u32` count, then the elements. No alignment
/// follows.
#[verifier::opaque]
pub open spec fn wire_u16_array(data: Seq<u8>, endian: Endianness, pos: nat) -> Wire<Seq<u16>> {
    match wire_u32(data, endian, pos) {
        Err(e) => Err(e),
        Ok((n, p)) => wire_repeat(u16_at(data, endian), p, n as nat),
    }
}

/// Swapping the byte order of a field and of the reader leaves the value:
/// where `swapped` holds the bytes of the field at `pos` in reverse, a
/// big-endian read of it yields what a little-endian read of `data` yields.
pub proof fn field_mirror(data: Seq<u8>, swapped: Seq<u8>, pos: nat, width: nat)
    requires
        width == 2 || width == 4 || width == 8,
        swapped.len() == data.len(),
        pos + width <= data.len() ==> swapped.subrange(pos as int, (pos + width) as int)
            == data.subrange(pos as int, (pos + width) as int).reverse(),
    ensures
        width == 2 ==> wire_u16(data, Endianness::Little, pos) == wire_u16(
            swapped,
            Endianness::Big,
            pos,
        ) && wire_i16(data, Endianness::Little, pos) == wire_i16(swapped, Endianness::Big, pos),
        width == 4 ==> wire_u32(data, Endianness::Little, pos) == wire_u32(
            swapped,
            Endianness::Big,
            pos,
        ) && wire_i32(data, Endianness::Little, pos) == wire_i32(swapped, Endianness::Big, pos),
        width == 8 ==> wire_u64(data, Endianness::Little, pos) == wire_u64(
            swapped,
            Endianness::Big,
            pos,
        ) && wire_i64(data, Endianness::Little, pos) == wire_i64(swapped, Endianness::Big, pos),
{
    reveal(wire_u16);
    reveal(wire_i16);
    reveal(wire_u32);
    reveal(wire_i32);
    reveal(wire_u64);
    reveal(wire_i64);
    if pos + width <= data.len() {
        byte_order_mirror(data.subrange(pos as int, (pos + width) as int));
    }
}

} // verus!
