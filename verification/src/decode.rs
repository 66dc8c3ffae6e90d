//! Building blocks for the layouts of records: a running state that threads
//! the cursor and the first failure through a sequence of reads, and the
//! reads that depend on the engine version.

use crate::asset::{AssetInfo, Endianness};
use crate::reader::{
    decoded, moved, wire_array, AssetReader, AssetReaderError, Deserialize, Layout,
};
use crate::version::UnityVersion;
use crate::wire::{wire_align, wire_byte_array, wire_u16_array, Failure, Wire};
use vstd::prelude::*;

verus! {

/// The state between two reads of a record: where the cursor stands, and
/// the failure if a read before has failed.
pub struct Step {
    pub pos: nat,
    pub failed: Option<Failure>,
}

impl Step {
    /// The state before the first read of a record that starts at `pos`.
    pub open spec fn at(pos: nat) -> Step {
        Step { pos, failed: None }
    }

    /// The outcome of a record whose reads led to this state: the failure
    /// if there was one, the record `v` and the cursor otherwise.
    pub open spec fn finish<T>(self, v: T) -> Wire<T> {
        match self.failed {
            Some(e) => Err(e),
            None => Ok((v, self.pos)),
        }
    }
}

/// One read of a record. `r` is what the read yields at the cursor of `s`.
/// After a failure nothing is read any more: the state stays, and the value
/// is of no account. Otherwise the value is that of `r` and the cursor moves
/// behind it, or the failure of `r` is recorded.
pub open spec fn step<T>(s: Step, r: Wire<T>) -> (T, Step) {
    match s.failed {
        Some(_) => (arbitrary(), s),
        None => match r {
            Ok((v, p)) => (v, Step { pos: p, failed: None }),
            Err(e) => (arbitrary(), Step { pos: s.pos, failed: Some(e) }),
        },
    }
}

/// A value that is on the wire only where `present`.
#[verifier::opaque]
pub open spec fn wire_opt<T: Layout>(
    present: bool,
    data: Seq<u8>,
    endian: Endianness,
    version: UnityVersion,
    pos: nat,
) -> Wire<Option<T::V>> {
    if present {
        match T::wire(data, endian, version, pos) {
            Err(e) => Err(e),
            Ok((v, p)) => Ok((Some(v), p)),
        }
    } else {
        Ok((None, pos))
    }
}

/// An array that is on the wire only where `present`.
#[verifier::opaque]
pub open spec fn wire_opt_array<T: Layout>(
    present: bool,
    data: Seq<u8>,
    endian: Endianness,
    version: UnityVersion,
    pos: nat,
) -> Wire<Option<Seq<T::V>>> {
    if present {
        match wire_array::<T>(data, endian, version, pos) {
            Err(e) => Err(e),
            Ok((v, p)) => Ok((Some(v), p)),
        }
    } else {
        Ok((None, pos))
    }
}

/// Alignment to 4 that takes place only where `due`.
#[verifier::opaque]
pub open spec fn wire_align_if(due: bool, pos: nat) -> Wire<()> {
    if due {
        wire_align(pos)
    } else {
        Ok(((), pos))
    }
}

/// An array of `u16` behind a `u32` count, followed by alignment to 4 where
/// `align`.
#[verifier::opaque]
pub open spec fn wire_u16s(data: Seq<u8>, endian: Endianness, align: bool, pos: nat) -> Wire<
    Seq<u16>,
> {
    match wire_u16_array(data, endian, pos) {
        Err(e) => Err(e),
        Ok((v, p)) => match wire_align_if(align, p) {
            Err(e) => Err(e),
            Ok((_, q)) => Ok((v, q)),
        },
    }
}

/// As [`wire_u16s`], on the wire only where `present`.
#[verifier::opaque]
pub open spec fn wire_opt_u16s(
    present: bool,
    data: Seq<u8>,
    endian: Endianness,
    align: bool,
    pos: nat,
) -> Wire<Option<Seq<u16>>> {
    if present {
        match wire_u16s(data, endian, align, pos) {
            Err(e) => Err(e),
            Ok((v, p)) => Ok((Some(v), p)),
        }
    } else {
        Ok((None, pos))
    }
}

/// Raw bytes behind a `u32` length, followed by alignment to 4.
#[verifier::opaque]
pub open spec fn wire_aligned_bytes(data: Seq<u8>, endian: Endianness, pos: nat) -> Wire<Seq<u8>> {
    match wire_byte_array(data, endian, pos) {
        Err(e) => Err(e),
        Ok((v, p)) => match wire_align(p) {
            Err(e) => Err(e),
            Ok((_, q)) => Ok((v, q)),
        },
    }
}

/// Decodes a value that is on the wire only where `present`.
pub fn read_opt<T: Deserialize>(present: bool, reader: &mut AssetReader, asset: &AssetInfo) -> (r:
    Result<Option<T>, AssetReaderError>)
    ensures
        decoded(
            *old(reader),
            *final(reader),
            r,
            wire_opt::<T>(
                present,
                old(reader).bytes(),
                old(reader).endian(),
                asset.metadata.unity_version,
                old(reader).pos(),
            ),
        ),
{
    proof {
        reveal(wire_opt);
    }
    if present {
        let v: T = T::deserialize(reader, asset)?;
        Ok(Some(v))
    } else {
        Ok(None)
    }
}

/// Decodes an array that is on the wire only where `present`.
pub fn read_opt_array<T: Deserialize>(
    present: bool,
    reader: &mut AssetReader,
    asset: &AssetInfo,
) -> (r: Result<Option<Vec<T>>, AssetReaderError>)
    ensures
        decoded(
            *old(reader),
            *final(reader),
            r,
            wire_opt_array::<T>(
                present,
                old(reader).bytes(),
                old(reader).endian(),
                asset.metadata.unity_version,
                old(reader).pos(),
            ),
        ),
{
    proof {
        reveal(wire_opt_array);
    }
    if present {
        let v: Vec<T> = T::deserialize_array(reader, asset)?;
        Ok(Some(v))
    } else {
        Ok(None)
    }
}

/// Aligns the cursor to 4 where `due`.
pub fn align_if(due: bool, reader: &mut AssetReader) -> (r: Result<(), AssetReaderError>)
    ensures
        moved(*old(reader), *final(reader), r, wire_align_if(due, old(reader).pos())),
{
    proof {
        reveal(wire_align_if);
    }
    if due {
        reader.align()
    } else {
        Ok(())
    }
}

/// Decodes an array of `u16` and aligns behind it where `align`.
pub fn read_u16s(align: bool, reader: &mut AssetReader) -> (r: Result<Vec<u16>, AssetReaderError>)
    ensures
        decoded(
            *old(reader),
            *final(reader),
            r,
            wire_u16s(old(reader).bytes(), old(reader).endian(), align, old(reader).pos()),
        ),
{
    proof {
        reveal(wire_u16s);
    }
    let v: Vec<u16> = reader.read_u16_array()?;
    align_if(align, reader)?;
    assert(v.deep_view() =~= v@);
    Ok(v)
}

/// Decodes an array of `u16` that is on the wire only where `present`.
pub fn read_opt_u16s(present: bool, align: bool, reader: &mut AssetReader) -> (r: Result<
    Option<Vec<u16>>,
    AssetReaderError,
>)
    ensures
        decoded(
            *old(reader),
            *final(reader),
            r,
            wire_opt_u16s(
                present,
                old(reader).bytes(),
                old(reader).endian(),
                align,
                old(reader).pos(),
            ),
        ),
{
    proof {
        reveal(wire_opt_u16s);
    }
    if present {
        let v: Vec<u16> = read_u16s(align, reader)?;
        Ok(Some(v))
    } else {
        Ok(None)
    }
}

/// Decodes raw bytes behind a `u32` length and aligns behind them.
pub fn read_aligned_bytes(reader: &mut AssetReader) -> (r: Result<Vec<u8>, AssetReaderError>)
    ensures
        decoded(
            *old(reader),
            *final(reader),
            r,
            wire_aligned_bytes(old(reader).bytes(), old(reader).endian(), old(reader).pos()),
        ),
{
    proof {
        reveal(wire_aligned_bytes);
    }
    let v: Vec<u8> = reader.read_byte_array()?;
    reader.align()?;
    assert(v.deep_view() =~= v@);
    Ok(v)
}

} // verus!
