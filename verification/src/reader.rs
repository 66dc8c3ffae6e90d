//! The cursor over a container's bytes, its primitive reads, and the decode
//! contract that every object type meets.

use crate::asset::{AssetInfo, Endianness};
use crate::endian::{
    be_i16, be_i32, be_i64, be_u16, be_u32, be_u64, le_i16, le_i32, le_i64, le_u16, le_u32, le_u64,
};
use crate::version::{UnityVersion, VersionParseError};
use crate::wire::{
    bad_seek, eof, first_zero, first_zero_is_first, latin1, u16_at, u32_at, wire_align,
    wire_bool, wire_byte_array, wire_bytes, wire_char_array, wire_cstring, wire_i16, wire_i32,
    wire_i64, wire_repeat, wire_repeat_fail, wire_u16, wire_u16_array, wire_u32, wire_u32_array,
    wire_u64, wire_u8, Failure, IoFault, Wire,
};
use vstd::prelude::*;
use vstd::slice::slice_subrange;

verus! {

/// Why decoding failed.
#[derive(Debug)]
pub enum AssetReaderError {
    /// An object names a type index that the type table lacks.
    MissingType(i32),
    /// A read ran past the end of the buffer, or a seek left the positions.
    IO(IoFault),
    /// The container version is none of 17 to 22.
    UnsupportedFileVersion(u32),
    UnsupportedUnityVersion(UnityVersion),
    UnsupportedFeature(String),
    /// The engine version string does not parse.
    InvalidVersion(VersionParseError),
    /// The bytes break a rule of the format.
    DeserializationError(String),
}

impl View for AssetReaderError {
    type V = Failure;

    open spec fn view(&self) -> Failure {
        match *self {
            AssetReaderError::MissingType(id) => Failure::MissingType(id),
            AssetReaderError::IO(f) => Failure::IO(f),
            AssetReaderError::UnsupportedFileVersion(v) => Failure::UnsupportedFileVersion(v),
            AssetReaderError::UnsupportedUnityVersion(v) => Failure::UnsupportedUnityVersion(v),
            AssetReaderError::UnsupportedFeature(m) => Failure::UnsupportedFeature(m@),
            AssetReaderError::InvalidVersion(e) => Failure::InvalidVersion(e),
            AssetReaderError::DeserializationError(m) => Failure::DeserializationError(m@),
        }
    }
}

impl From<VersionParseError> for AssetReaderError {
    fn from(err: VersionParseError) -> (r: Self) {
        AssetReaderError::InvalidVersion(err)
    }
}

impl vstd::std_specs::convert::FromSpecImpl<VersionParseError> for AssetReaderError {
    open spec fn obeys_from_spec() -> bool {
        true
    }

    open spec fn from_spec(err: VersionParseError) -> Self {
        AssetReaderError::InvalidVersion(err)
    }
}

/// Target of a seek: from the start, from the end, or from the cursor.
#[derive(Clone, Copy, Debug, PartialEq, Eq, Structural)]
pub enum SeekFrom {
    Start(u64),
    End(i64),
    Current(i64),
}

/// Where a seek on a buffer of `len` bytes with the cursor at `pos` leads,
/// if that is a position.
pub open spec fn seek_target(len: nat, pos: nat, to: SeekFrom) -> Option<nat> {
    let t: int = match to {
        SeekFrom::Start(n) => n as int,
        SeekFrom::End(d) => len + d,
        SeekFrom::Current(d) => pos + d,
    };
    if 0 <= t <= u64::MAX {
        Some(t as nat)
    } else {
        None
    }
}

/// A cursor over an immutable byte buffer, with the byte order in which
/// multi-byte fields are read.
pub struct AssetReader {
    data: Vec<u8>,
    position: u64,
    endianness: Endianness,
}

/// What a decoding call owes: the buffer and the byte order are untouched;
/// where `want` is a value, the call returns it and leaves the cursor behind
/// it; where `want` is a failure, the call returns that failure.
pub open spec fn decoded<T: DeepView>(
    before: AssetReader,
    after: AssetReader,
    r: Result<T, AssetReaderError>,
    want: Wire<T::V>,
) -> bool {
    &&& after.bytes() == before.bytes()
    &&& after.endian() == before.endian()
    &&& match want {
        Ok((v, p)) => r is Ok && r->Ok_0.deep_view() == v && after.pos() == p,
        Err(e) => r is Err && r->Err_0@ == e,
    }
}

/// As [`decoded`], for a call that returns no value.
pub open spec fn moved(
    before: AssetReader,
    after: AssetReader,
    r: Result<(), AssetReaderError>,
    want: Wire<()>,
) -> bool {
    &&& after.bytes() == before.bytes()
    &&& after.endian() == before.endian()
    &&& match want {
        Ok((_, p)) => r is Ok && after.pos() == p,
        Err(e) => r is Err && r->Err_0@ == e,
    }
}

/// As [`decoded`], for a call that returns a vector of plain values.
pub open spec fn decoded_seq<T>(
    before: AssetReader,
    after: AssetReader,
    r: Result<Vec<T>, AssetReaderError>,
    want: Wire<Seq<T>>,
) -> bool {
    &&& after.bytes() == before.bytes()
    &&& after.endian() == before.endian()
    &&& match want {
        Ok((v, p)) => r is Ok && r->Ok_0@ == v && after.pos() == p,
        Err(e) => r is Err && r->Err_0@ == e,
    }
}

/// As [`decoded`], for a call that returns a string.
pub open spec fn decoded_text(
    before: AssetReader,
    after: AssetReader,
    r: Result<String, AssetReaderError>,
    want: Wire<Seq<char>>,
) -> bool {
    &&& after.bytes() == before.bytes()
    &&& after.endian() == before.endian()
    &&& match want {
        Ok((v, p)) => r is Ok && r->Ok_0@ == v && after.pos() == p,
        Err(e) => r is Err && r->Err_0@ == e,
    }
}

/// `n` items of `T` one after the other.
pub open spec fn wire_items<T: Layout>(
    data: Seq<u8>,
    endian: Endianness,
    version: UnityVersion,
    pos: nat,
    n: nat,
) -> Wire<Seq<T::V>>
    decreases n,
{
    if n == 0 {
        Ok((Seq::empty(), pos))
    } else {
        match wire_items::<T>(data, endian, version, pos, (n - 1) as nat) {
            Err(e) => Err(e),
            Ok((items, p)) => match T::wire(data, endian, version, p) {
                Err(e) => Err(e),
                Ok((x, q)) => Ok((items.push(x), q)),
            },
        }
    }
}

/// The number of items that a signed count stands for: none if negative.
pub open spec fn count_of(n: i32) -> nat {
    if n > 0 {
        n as nat
    } else {
        0
    }
}

/// An array: an `i32` count, that many items, then alignment to 4.
#[verifier::opaque]
pub open spec fn wire_array<T: Layout>(
    data: Seq<u8>,
    endian: Endianness,
    version: UnityVersion,
    pos: nat,
) -> Wire<Seq<T::V>> {
    match wire_i32(data, endian, pos) {
        Err(e) => Err(e),
        Ok((n, p)) => match wire_items::<T>(data, endian, version, p, count_of(n)) {
            Err(e) => Err(e),
            Ok((items, q)) => match wire_align(q) {
                Err(e) => Err(e),
                Ok((_, a)) => Ok((items, a)),
            },
        },
    }
}

/// A failure among the first `i` items is the failure of any longer run.
pub proof fn wire_items_fail<T: Layout>(
    data: Seq<u8>,
    endian: Endianness,
    version: UnityVersion,
    pos: nat,
    i: nat,
    n: nat,
)
    requires
        i <= n,
        wire_items::<T>(data, endian, version, pos, i) is Err,
    ensures
        wire_items::<T>(data, endian, version, pos, n) == wire_items::<T>(
            data,
            endian,
            version,
            pos,
            i,
        ),
    decreases n,
{
    if i < n {
        wire_items_fail::<T>(data, endian, version, pos, i, (n - 1) as nat);
    }
}

/// The items of a run stand in file order: the first `i` items of a longer
/// run are the run of `i` items, and item `i` is what the layout of `T`
/// yields where those end.
pub proof fn wire_items_in_order<T: Layout>(
    data: Seq<u8>,
    endian: Endianness,
    version: UnityVersion,
    pos: nat,
    n: nat,
    i: nat,
)
    requires
        i < n,
        wire_items::<T>(data, endian, version, pos, n) is Ok,
    ensures
        wire_items::<T>(data, endian, version, pos, n)->Ok_0.0.len() == n,
        wire_items::<T>(data, endian, version, pos, i) matches Ok((before, p)) && before
            == wire_items::<T>(data, endian, version, pos, n)->Ok_0.0.take(i as int) && (T::wire(
            data,
            endian,
            version,
            p,
        ) matches Ok((x, _)) && x == wire_items::<T>(data, endian, version, pos, n)->Ok_0.0[i as int]),
    decreases n,
{
    let shorter = wire_items::<T>(data, endian, version, pos, (n - 1) as nat);
    wire_items_len::<T>(data, endian, version, pos, (n - 1) as nat);
    if i + 1 < n {
        wire_items_in_order::<T>(data, endian, version, pos, (n - 1) as nat, i);
        let all = wire_items::<T>(data, endian, version, pos, n)->Ok_0.0;
        assert(all.take(i as int) =~= shorter->Ok_0.0.take(i as int));
    } else {
        let all = wire_items::<T>(data, endian, version, pos, n)->Ok_0.0;
        assert(all.take(i as int) =~= shorter->Ok_0.0);
    }
}

/// A run of `n` items has `n` items.
pub proof fn wire_items_len<T: Layout>(
    data: Seq<u8>,
    endian: Endianness,
    version: UnityVersion,
    pos: nat,
    n: nat,
)
    ensures
        wire_items::<T>(data, endian, version, pos, n) matches Ok((items, _)) ==> items.len() == n,
    decreases n,
{
    if n > 0 {
        wire_items_len::<T>(data, endian, version, pos, (n - 1) as nat);
    }
}

/// Behind a decoded array the cursor stands on a multiple of 4.
pub proof fn array_ends_aligned<T: Layout>(
    data: Seq<u8>,
    endian: Endianness,
    version: UnityVersion,
    pos: nat,
)
    ensures
        wire_array::<T>(data, endian, version, pos) matches Ok((_, p)) ==> p % 4 == 0,
{
    reveal(wire_array);
    reveal(wire_align);
}

/// Decoding is a function of its input: two calls that owe the same outcome
/// both succeed or both fail, with values of equal view and equal cursors, or
/// with equal failures.
pub proof fn decoding_is_deterministic<T: DeepView>(
    before1: AssetReader,
    after1: AssetReader,
    r1: Result<T, AssetReaderError>,
    before2: AssetReader,
    after2: AssetReader,
    r2: Result<T, AssetReaderError>,
    want: Wire<T::V>,
)
    requires
        decoded(before1, after1, r1, want),
        decoded(before2, after2, r2, want),
    ensures
        r1 is Ok <==> r2 is Ok,
        r1 is Ok ==> r1->Ok_0.deep_view() == r2->Ok_0.deep_view() && after1.pos() == after2.pos(),
        r1 is Err ==> r1->Err_0@ == r2->Err_0@,
{
}

/// The layout of a type in a container: what the bytes at a position mean
/// for a given byte order and engine version.
pub trait Layout: Sized + DeepView {
    /// What decoding a `Self` at `pos` yields: its value and the position
    /// behind it, or the failure.
    spec fn wire(data: Seq<u8>, endian: Endianness, version: UnityVersion, pos: nat) -> Wire<
        Self::V,
    >;
}

/// A type that can be decoded from a container's bytes: `deserialize` reads
/// by the type's layout.
pub trait Deserialize: Layout {
    /// Decodes one `Self` at the cursor, for the engine version of `asset`.
    fn deserialize(reader: &mut AssetReader, asset: &AssetInfo) -> (r: Result<
        Self,
        AssetReaderError,
    >)
        ensures
            decoded(
                *old(reader),
                *final(reader),
                r,
                Self::wire(
                    old(reader).bytes(),
                    old(reader).endian(),
                    asset.metadata.unity_version,
                    old(reader).pos(),
                ),
            ),
    ;

    /// Decodes an array of `Self`. On success the cursor stands on a
    /// multiple of 4.
    fn deserialize_array(reader: &mut AssetReader, asset: &AssetInfo) -> (r: Result<
        Vec<Self>,
        AssetReaderError,
    >)
        ensures
            decoded(
                *old(reader),
                *final(reader),
                r,
                wire_array::<Self>(
                    old(reader).bytes(),
                    old(reader).endian(),
                    asset.metadata.unity_version,
                    old(reader).pos(),
                ),
            ),
            r is Ok ==> final(reader).pos() % 4 == 0,
    {
        proof {
            reveal(wire_array);
            reveal(wire_align);
        }
        let ghost data = reader.bytes();
        let ghost endian = reader.endian();
        let ghost version = asset.metadata.unity_version;
        let n: i32 = reader.read_i32()?;
        let ghost start = reader.pos();
        let mut result: Vec<Self> = Vec::new();
        let mut i: i32 = 0;
        assert(result.deep_view() =~= Seq::<Self::V>::empty());
        while i < n
            invariant
                reader.bytes() == data,
                reader.endian() == endian,
                version == asset.metadata.unity_version,
                data == old(reader).bytes(),
                endian == old(reader).endian(),
                wire_i32(data, endian, old(reader).pos()) == Ok::<(i32, nat), Failure>((n, start)),
                0 <= i,
                i as nat <= count_of(n),
                wire_items::<Self>(data, endian, version, start, i as nat) == Ok::<
                    (Seq<Self::V>, nat),
                    Failure,
                >((result.deep_view(), reader.pos())),
            decreases n - i,
        {
            let ghost before = result.deep_view();
            match Self::deserialize(reader, asset) {
                Err(e) => {
                    proof {
                        reveal(wire_array);
                        wire_items_fail::<Self>(
                            data,
                            endian,
                            version,
                            start,
                            (i + 1) as nat,
                            count_of(n),
                        );
                    }
                    return Err(e);
                },
                Ok(item) => {
                    result.push(item);
                    assert(result.deep_view() =~= before.push(item.deep_view()));
                },
            }
            i += 1;
        }
        reader.align()?;
        Ok(result)
    }
}

impl AssetReader {
    /// The bytes of the buffer.
    pub closed spec fn bytes(&self) -> Seq<u8> {
        self.data@
    }

    /// The cursor.
    pub closed spec fn pos(&self) -> nat {
        self.position as nat
    }

    /// The byte order in which multi-byte fields are read.
    pub closed spec fn endian(&self) -> Endianness {
        self.endianness
    }

    /// A reader at the start of `data`, reading big-endian.
    pub fn new(data: Vec<u8>) -> (r: AssetReader)
        ensures
            r.bytes() == data@,
            r.pos() == 0,
            r.endian() == Endianness::Big,
    {
        AssetReader { data, position: 0, endianness: Endianness::Big }
    }

    /// Advances the cursor to the next multiple of 4.
    pub fn align(&mut self) -> (r: Result<(), AssetReaderError>)
        ensures
            moved(*old(self), *final(self), r, wire_align(old(self).pos())),
            r is Ok ==> final(self).pos() % 4 == 0,
    {
        proof {
            reveal(wire_align);
        }
        let rem: u64 = self.position % 4;
        if rem != 0 {
            if self.position > u64::MAX - (4 - rem) {
                return Err(AssetReaderError::IO(IoFault::InvalidSeek));
            }
            self.position = self.position + (4 - rem);
        }
        Ok(())
    }

    /// The cursor.
    pub fn current_pos(&mut self) -> (r: Result<u64, AssetReaderError>)
        ensures
            *final(self) == *old(self),
            r is Ok,
            r->Ok_0 == old(self).pos(),
    {
        Ok(self.position)
    }

    /// Moves the cursor. A target that is negative or above `u64::MAX`
    /// fails and leaves the cursor where it was; a target behind the end of
    /// the buffer is accepted, and the next read there fails.
    pub fn seek(&mut self, seek: SeekFrom) -> (r: Result<u64, AssetReaderError>)
        ensures
            final(self).bytes() == old(self).bytes(),
            final(self).endian() == old(self).endian(),
            match seek_target(old(self).bytes().len(), old(self).pos(), seek) {
                Some(t) => r is Ok && r->Ok_0 == t && final(self).pos() == t,
                None => r is Err && r->Err_0@ == bad_seek() && final(self).pos() == old(self).pos(),
            },
    {
        let target: Option<u64> = match seek {
            SeekFrom::Start(n) => Some(n),
            SeekFrom::End(d) => (self.data.len() as u64).checked_add_signed(d),
            SeekFrom::Current(d) => self.position.checked_add_signed(d),
        };
        match target {
            Some(t) => {
                self.position = t;
                Ok(t)
            },
            None => Err(AssetReaderError::IO(IoFault::InvalidSeek)),
        }
    }

    /// Sets the byte order for the reads that follow.
    pub fn set_endianness(&mut self, endianness: Endianness)
        ensures
            final(self).bytes() == old(self).bytes(),
            final(self).pos() == old(self).pos(),
            final(self).endian() == endianness,
    {
        self.endianness = endianness;
    }

    /// Claims the next `n` bytes: returns the index of the first and moves
    /// the cursor behind the last.
    fn claim(&mut self, n: usize) -> (r: Result<usize, AssetReaderError>)
        requires
            n > 0,
        ensures
            final(self).bytes() == old(self).bytes(),
            final(self).endian() == old(self).endian(),
            old(self).pos() + n <= old(self).bytes().len() ==> r is Ok && r->Ok_0 == old(
                self,
            ).pos() && final(self).pos() == old(self).pos() + n,
            old(self).pos() + n > old(self).bytes().len() ==> r is Err && r->Err_0@ == eof(),
            r is Ok ==> r->Ok_0 + n <= usize::MAX,
    {
        let len: usize = self.data.len();
        if self.position > len as u64 || n > len - self.position as usize {
            return Err(AssetReaderError::IO(IoFault::UnexpectedEof));
        }
        let start: usize = self.position as usize;
        self.position = self.position + n as u64;
        Ok(start)
    }

    /// One byte.
    pub fn read_u8(&mut self) -> (r: Result<u8, AssetReaderError>)
        ensures
            decoded(*old(self), *final(self), r, wire_u8(old(self).bytes(), old(self).pos())),
    {
        proof {
            reveal(wire_u8);
        }
        let at: usize = self.claim(1)?;
        Ok(self.data[at])
    }

    /// Two bytes as an unsigned number in the reader's byte order.
    pub fn read_u16(&mut self) -> (r: Result<u16, AssetReaderError>)
        ensures
            decoded(
                *old(self),
                *final(self),
                r,
                wire_u16(old(self).bytes(), old(self).endian(), old(self).pos()),
            ),
    {
        proof {
            reveal(wire_u16);
        }
        let at: usize = self.claim(2)?;
        let buf = slice_subrange(self.data.as_slice(), at, at + 2);
        match self.endianness {
            Endianness::Big => Ok(be_u16(buf)),
            Endianness::Little => Ok(le_u16(buf)),
        }
    }

    /// Two bytes as a two's-complement number in the reader's byte order.
    pub fn read_i16(&mut self) -> (r: Result<i16, AssetReaderError>)
        ensures
            decoded(
                *old(self),
                *final(self),
                r,
                wire_i16(old(self).bytes(), old(self).endian(), old(self).pos()),
            ),
    {
        proof {
            reveal(wire_i16);
        }
        let at: usize = self.claim(2)?;
        let buf = slice_subrange(self.data.as_slice(), at, at + 2);
        match self.endianness {
            Endianness::Big => Ok(be_i16(buf)),
            Endianness::Little => Ok(le_i16(buf)),
        }
    }

    /// Eight bytes as a two's-complement number in the reader's byte order.
    pub fn read_i64(&mut self) -> (r: Result<i64, AssetReaderError>)
        ensures
            decoded(
                *old(self),
                *final(self),
                r,
                wire_i64(old(self).bytes(), old(self).endian(), old(self).pos()),
            ),
    {
        proof {
            reveal(wire_i64);
        }
        let at: usize = self.claim(8)?;
        let buf = slice_subrange(self.data.as_slice(), at, at + 8);
        match self.endianness {
            Endianness::Big => Ok(be_i64(buf)),
            Endianness::Little => Ok(le_i64(buf)),
        }
    }

    /// Four bytes as a two's-complement number in the reader's byte order.
    pub fn read_i32(&mut self) -> (r: Result<i32, AssetReaderError>)
        ensures
            decoded(
                *old(self),
                *final(self),
                r,
                wire_i32(old(self).bytes(), old(self).endian(), old(self).pos()),
            ),
    {
        proof {
            reveal(wire_i32);
        }
        let at: usize = self.claim(4)?;
        let buf = slice_subrange(self.data.as_slice(), at, at + 4);
        match self.endianness {
            Endianness::Big => Ok(be_i32(buf)),
            Endianness::Little => Ok(le_i32(buf)),
        }
    }

    /// Four bytes as an unsigned number in the reader's byte order.
    pub fn read_u32(&mut self) -> (r: Result<u32, AssetReaderError>)
        ensures
            decoded(
                *old(self),
                *final(self),
                r,
                wire_u32(old(self).bytes(), old(self).endian(), old(self).pos()),
            ),
    {
        proof {
            reveal(wire_u32);
        }
        let at: usize = self.claim(4)?;
        let buf = slice_subrange(self.data.as_slice(), at, at + 4);
        match self.endianness {
            Endianness::Big => Ok(be_u32(buf)),
            Endianness::Little => Ok(le_u32(buf)),
        }
    }

    /// Eight bytes as an unsigned number in the reader's byte order.
    pub fn read_u64(&mut self) -> (r: Result<u64, AssetReaderError>)
        ensures
            decoded(
                *old(self),
                *final(self),
                r,
                wire_u64(old(self).bytes(), old(self).endian(), old(self).pos()),
            ),
    {
        proof {
            reveal(wire_u64);
        }
        let at: usize = self.claim(8)?;
        let buf = slice_subrange(self.data.as_slice(), at, at + 8);
        match self.endianness {
            Endianness::Big => Ok(be_u64(buf)),
            Endianness::Little => Ok(le_u64(buf)),
        }
    }

    /// Reads a binary32 number and returns its bit pattern: the four bytes
    /// as an unsigned number in the reader's byte order.
    pub fn read_f32(&mut self) -> (r: Result<u32, AssetReaderError>)
        ensures
            decoded(
                *old(self),
                *final(self),
                r,
                wire_u32(old(self).bytes(), old(self).endian(), old(self).pos()),
            ),
    {
        self.read_u32()
    }

    /// One byte; true exactly for the byte 1. Does not align.
    pub fn read_bool(&mut self) -> (r: Result<bool, AssetReaderError>)
        ensures
            decoded(*old(self), *final(self), r, wire_bool(old(self).bytes(), old(self).pos())),
    {
        proof {
            reveal(wire_bool);
        }
        let at: usize = self.claim(1)?;
        Ok(self.data[at] == 1)
    }

    /// Copies the next `n` bytes.
    pub fn read_bytes(&mut self, n: usize) -> (r: Result<Vec<u8>, AssetReaderError>)
        ensures
            decoded_seq(
                *old(self),
                *final(self),
                r,
                wire_bytes(old(self).bytes(), old(self).pos(), n as nat),
            ),
    {
        proof {
            reveal(wire_bytes);
        }
        let mut buf: Vec<u8> = Vec::new();
        if n == 0 {
            return Ok(buf);
        }
        let at: usize = self.claim(n)?;
        let mut i: usize = 0;
        while i < n
            invariant
                i <= n,
                at + n <= self.data.len(),
                buf@ == self.data@.subrange(at as int, at + i),
            decreases n - i,
        {
            buf.push(self.data[at + i]);
            i += 1;
            assert(buf@ =~= self.data@.subrange(at as int, at + i));
        }
        Ok(buf)
    }

    /// A `u32` length, then that many bytes. Does not align.
    pub fn read_byte_array(&mut self) -> (r: Result<Vec<u8>, AssetReaderError>)
        ensures
            decoded_seq(
                *old(self),
                *final(self),
                r,
                wire_byte_array(old(self).bytes(), old(self).endian(), old(self).pos()),
            ),
    {
        proof {
            reveal(wire_byte_array);
        }
        let count: u32 = self.read_u32()?;
        self.read_bytes(count as usize)
    }

    /// A `u32` count, then that many `u32` elements. Does not align.
    #[verifier::loop_isolation(false)]
    pub fn read_u32_array(&mut self) -> (r: Result<Vec<u32>, AssetReaderError>)
        ensures
            decoded_seq(
                *old(self),
                *final(self),
                r,
                wire_u32_array(old(self).bytes(), old(self).endian(), old(self).pos()),
            ),
    {
        proof {
            reveal(wire_u32_array);
        }
        let ghost data = self.bytes();
        let ghost endian = self.endian();
        let count: u32 = self.read_u32()?;
        let ghost start = self.pos();
        let mut xs: Vec<u32> = Vec::new();
        let mut i: u32 = 0;
        while i < count
            invariant
                self.bytes() == data,
                self.endian() == endian,
                i <= count,
                wire_repeat(u32_at(data, endian), start, i as nat) == Ok::<(Seq<u32>, nat), Failure>(
                    (xs@, self.pos()),
                ),
            decreases count - i,
        {
            match self.read_u32() {
                Err(e) => {
                    proof {
                        wire_repeat_fail(u32_at(data, endian), start, (i + 1) as nat, count as nat);
                    }
                    return Err(e);
                },
                Ok(x) => {
                    xs.push(x);
                },
            }
            i += 1;
        }
        Ok(xs)
    }

    /// A `u32` count, then that many `u16` elements. Does not align: where
    /// the format aligns after such an array, the caller does.
    #[verifier::loop_isolation(false)]
    pub fn read_u16_array(&mut self) -> (r: Result<Vec<u16>, AssetReaderError>)
        ensures
            decoded_seq(
                *old(self),
                *final(self),
                r,
                wire_u16_array(old(self).bytes(), old(self).endian(), old(self).pos()),
            ),
    {
        proof {
            reveal(wire_u16_array);
        }
        let ghost data = self.bytes();
        let ghost endian = self.endian();
        let count: u32 = self.read_u32()?;
        let ghost start = self.pos();
        let mut xs: Vec<u16> = Vec::new();
        let mut i: u32 = 0;
        while i < count
            invariant
                self.bytes() == data,
                self.endian() == endian,
                i <= count,
                wire_repeat(u16_at(data, endian), start, i as nat) == Ok::<(Seq<u16>, nat), Failure>(
                    (xs@, self.pos()),
                ),
            decreases count - i,
        {
            match self.read_u16() {
                Err(e) => {
                    proof {
                        wire_repeat_fail(u16_at(data, endian), start, (i + 1) as nat, count as nat);
                    }
                    return Err(e);
                },
                Ok(x) => {
                    xs.push(x);
                },
            }
            i += 1;
        }
        Ok(xs)
    }

    /// A length-prefixed string whose bytes are its characters, then
    /// alignment to 4.
    pub fn read_char_array(&mut self) -> (r: Result<String, AssetReaderError>)
        ensures
            decoded_text(
                *old(self),
                *final(self),
                r,
                wire_char_array(old(self).bytes(), old(self).endian(), old(self).pos()),
            ),
    {
        proof {
            reveal(wire_char_array);
        }
        let bytes: Vec<u8> = self.read_byte_array()?;
        let res: String = widen(&bytes);
        self.align()?;
        Ok(res)
    }

    /// The bytes up to the next zero as characters; the zero is consumed
    /// and not part of the string. Does not align.
    pub fn read_null_terminated_string(&mut self) -> (r: Result<String, AssetReaderError>)
        ensures
            decoded_text(
                *old(self),
                *final(self),
                r,
                wire_cstring(old(self).bytes(), old(self).pos()),
            ),
    {
        proof {
            reveal(wire_cstring);
            reveal(wire_u8);
        }
        let ghost start = self.pos();
        let mut res: String = String::new();
        proof {
            first_zero_is_first(self.data@, start);
        }
        loop
            invariant
                self.bytes() == old(self).bytes(),
                self.endian() == old(self).endian(),
                start == old(self).pos(),
                start <= self.pos(),
                self.pos() <= first_zero(self.data@, start),
                self.pos() <= self.data@.len() ==> res@ == latin1(
                    self.data@.subrange(start as int, self.pos() as int),
                ),
            decreases self.data@.len() + 1 - self.pos(),
        {
            proof {
                reveal(wire_cstring);
                reveal(wire_u8);
                first_zero_is_first(self.data@, start);
            }
            let ghost at = self.pos();
            let b: u8 = self.read_u8()?;
            if b == 0 {
                return Ok(res);
            }
            res.push(b as char);
            assert(res@ =~= latin1(self.data@.subrange(start as int, (at + 1) as int)));
        }
    }
}

/// The failure that reports a broken rule of the format, with `msg` as its
/// message.
pub fn malformed(msg: &str) -> (r: AssetReaderError)
    ensures
        r@ == Failure::DeserializationError(msg@),
{
    AssetReaderError::DeserializationError(msg.to_owned())
}

/// `String::push`: the character is appended.
pub assume_specification[ String::push ](s: &mut String, ch: char)
    ensures
        final(s)@ == old(s)@.push(ch),
;

/// The string whose characters are the bytes of `bytes`, one for one.
pub fn widen(bytes: &Vec<u8>) -> (r: String)
    ensures
        r@ == latin1(bytes@),
{
    let mut res: String = String::new();
    let mut i: usize = 0;
    while i < bytes.len()
        invariant
            i <= bytes.len(),
            res@ == latin1(bytes@.take(i as int)),
        decreases bytes.len() - i,
    {
        res.push(bytes[i] as char);
        i += 1;
        assert(res@ =~= latin1(bytes@.take(i as int)));
    }
    assert(bytes@.take(i as int) =~= bytes@);
    res
}

impl Layout for u8 {
    open spec fn wire(data: Seq<u8>, endian: Endianness, version: UnityVersion, pos: nat) -> Wire<
        u8,
    > {
        wire_u8(data, pos)
    }
}

impl Deserialize for u8 {
    fn deserialize(reader: &mut AssetReader, asset: &AssetInfo) -> (r: Result<
        Self,
        AssetReaderError,
    >) {
        reader.read_u8()
    }
}

impl Layout for u16 {
    open spec fn wire(data: Seq<u8>, endian: Endianness, version: UnityVersion, pos: nat) -> Wire<
        u16,
    > {
        wire_u16(data, endian, pos)
    }
}

impl Deserialize for u16 {
    fn deserialize(reader: &mut AssetReader, asset: &AssetInfo) -> (r: Result<
        Self,
        AssetReaderError,
    >) {
        reader.read_u16()
    }
}

impl Layout for u32 {
    /// Four bytes as an unsigned number; a binary32 number decodes to its
    /// bit pattern by this layout.
    open spec fn wire(data: Seq<u8>, endian: Endianness, version: UnityVersion, pos: nat) -> Wire<
        u32,
    > {
        wire_u32(data, endian, pos)
    }
}

impl Deserialize for u32 {
    fn deserialize(reader: &mut AssetReader, asset: &AssetInfo) -> (r: Result<
        Self,
        AssetReaderError,
    >) {
        reader.read_u32()
    }
}

impl Layout for i32 {
    open spec fn wire(data: Seq<u8>, endian: Endianness, version: UnityVersion, pos: nat) -> Wire<
        i32,
    > {
        wire_i32(data, endian, pos)
    }
}

impl Deserialize for i32 {
    fn deserialize(reader: &mut AssetReader, asset: &AssetInfo) -> (r: Result<
        Self,
        AssetReaderError,
    >) {
        reader.read_i32()
    }
}

impl Layout for bool {
    /// One byte; true exactly for the byte 1.
    open spec fn wire(data: Seq<u8>, endian: Endianness, version: UnityVersion, pos: nat) -> Wire<
        bool,
    > {
        wire_bool(data, pos)
    }
}

impl Deserialize for bool {
    fn deserialize(reader: &mut AssetReader, asset: &AssetInfo) -> (r: Result<
        Self,
        AssetReaderError,
    >) {
        reader.read_bool()
    }
}

impl Layout for i64 {
    open spec fn wire(data: Seq<u8>, endian: Endianness, version: UnityVersion, pos: nat) -> Wire<
        i64,
    > {
        wire_i64(data, endian, pos)
    }
}

impl Deserialize for i64 {
    fn deserialize(reader: &mut AssetReader, asset: &AssetInfo) -> (r: Result<
        Self,
        AssetReaderError,
    >) {
        reader.read_i64()
    }
}

impl Layout for String {
    /// A length-prefixed string of 8-bit characters, then alignment.
    open spec fn wire(data: Seq<u8>, endian: Endianness, version: UnityVersion, pos: nat) -> Wire<
        Seq<char>,
    > {
        wire_char_array(data, endian, pos)
    }
}

impl Deserialize for String {
    fn deserialize(reader: &mut AssetReader, asset: &AssetInfo) -> (r: Result<
        Self,
        AssetReaderError,
    >) {
        reader.read_char_array()
    }
}

} // verus!
