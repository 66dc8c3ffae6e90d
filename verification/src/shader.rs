//! Shaders: properties, sub-shaders, passes and the render state of a pass.

use crate::asset::{AssetInfo, Endianness, OMap};
use crate::decode::{
    read_aligned_bytes, read_opt, read_opt_u16s, step, wire_aligned_bytes, wire_opt,
    wire_opt_u16s, Step,
};
use crate::program::{UnityShaderSerializedProgram, UnityShaderSerializedProgramView};
use crate::reader::{
    malformed, moved, wire_array, AssetReader, AssetReaderError, Deserialize, Layout,
};
use crate::version::UnityVersion;
use crate::wire::{
    wire_align, wire_bool, wire_bytes, wire_char_array, wire_i32, wire_u32, Failure, Wire,
};
use vstd::prelude::*;

verus! {

/// What a pass does: render, use another pass by name, or grab the screen.
#[derive(Clone, Copy, Debug, PartialEq, Eq, Structural)]
pub enum UnityShaderPassType {
    Normal,
    Use,
    Grab,
}

impl UnityShaderPassType {
    /// The number that stands for the value on the wire.
    pub open spec fn index(self) -> int {
        match self {
            UnityShaderPassType::Normal => 0,
            UnityShaderPassType::Use => 1,
            UnityShaderPassType::Grab => 2,
        }
    }
}

/// The pass type that the number `value` stands for: 0, 1 and 2 each stand for
/// one, no other number does.
pub open spec fn pass_type_of(value: i32) -> Option<UnityShaderPassType> {
    if value == 0 {
        Some(UnityShaderPassType::Normal)
    } else if value == 1 {
        Some(UnityShaderPassType::Use)
    } else if value == 2 {
        Some(UnityShaderPassType::Grab)
    } else {
        None
    }
}

/// Message of the failure on a number that stands for no such value.
pub open spec fn unrecognized_pass_type() -> Seq<char> {
    "unrecognized pass type"@
}

/// The numbers 0 to 2 are mapped, each to the pass type with that index, and no
/// other number is; every pass type is the image of its index.
pub proof fn pass_type_domain(value: i32, x: UnityShaderPassType)
    ensures
        pass_type_of(value) is Some <==> 0 <= value <= 2,
        pass_type_of(value) matches Some(t) ==> t.index() == value,
        pass_type_of(x.index() as i32) == Some(x),
{
}

impl DeepView for UnityShaderPassType {
    type V = UnityShaderPassType;

    open spec fn deep_view(&self) -> UnityShaderPassType {
        *self
    }
}

impl Layout for UnityShaderPassType {
    /// An `i32` that must stand for a pass type.
    open spec fn wire(data: Seq<u8>, endian: Endianness, version: UnityVersion, pos: nat) -> Wire<
        UnityShaderPassType,
    > {
        match wire_i32(data, endian, pos) {
            Err(e) => Err(e),
            Ok((raw, p)) => match pass_type_of(raw) {
                Some(t) => Ok((t, p)),
                None => Err(Failure::DeserializationError(unrecognized_pass_type())),
            },
        }
    }
}

impl Deserialize for UnityShaderPassType {
    fn deserialize(reader: &mut AssetReader, asset: &AssetInfo) -> (r: Result<
        Self,
        AssetReaderError,
    >) {
        let raw: i32 = reader.read_i32()?;
        UnityShaderSerializedPass::get_pass_type(raw)
    }
}

impl UnityShaderSerializedPass {
    /// The pass type that `value` stands for; a failure for a number that is
    /// none of 0, 1, 2.
    pub fn get_pass_type(value: i32) -> (r: Result<UnityShaderPassType, AssetReaderError>)
        ensures
            match pass_type_of(value) {
                Some(t) => r is Ok && r->Ok_0 == t,
                None => r is Err && r->Err_0@ == Failure::DeserializationError(unrecognized_pass_type()),
            },
    {
        if value == 0 {
            Ok(UnityShaderPassType::Normal)
        } else if value == 1 {
            Ok(UnityShaderPassType::Use)
        } else if value == 2 {
            Ok(UnityShaderPassType::Grab)
        } else {
            Err(malformed("unrecognized pass type"))
        }
    }
}

/// A number of the render state that is either a constant or bound to a
/// property: the constant as a binary32 bit pattern, and the name of the
/// property.
#[derive(Clone, Debug)]
pub struct UnityShaderSerializedShaderFloatValue {
    /// The bit pattern of the binary32 value.
    pub val: u32,
    pub name: String,
}

/// The value of a [`UnityShaderSerializedShaderFloatValue`].
pub struct UnityShaderSerializedShaderFloatValueView {
    pub val: u32,
    pub name: Seq<char>,
}

impl DeepView for UnityShaderSerializedShaderFloatValue {
    type V = UnityShaderSerializedShaderFloatValueView;

    open spec fn deep_view(&self) -> UnityShaderSerializedShaderFloatValueView {
        UnityShaderSerializedShaderFloatValueView {
            val: self.val,
            name: self.name.deep_view(),
        }
    }
}

impl Layout for UnityShaderSerializedShaderFloatValue {
    /// A binary32 number, then the name as a string.
    #[verifier::opaque]
    open spec fn wire(data: Seq<u8>, endian: Endianness, version: UnityVersion, pos: nat) -> Wire<
        UnityShaderSerializedShaderFloatValueView,
    > {
        let s0 = Step::at(pos);
        let (val, s1) = step(s0, wire_u32(data, endian, s0.pos));
        let (name, s2) = step(s1, wire_char_array(data, endian, s1.pos));
        s2.finish(
            UnityShaderSerializedShaderFloatValueView {
                val,
                name,
            },
        )
    }
}

impl Deserialize for UnityShaderSerializedShaderFloatValue {
    fn deserialize(reader: &mut AssetReader, asset: &AssetInfo) -> (r: Result<
        Self,
        AssetReaderError,
    >) {
        proof {
            reveal(<UnityShaderSerializedShaderFloatValue as Layout>::wire);
        }
        let val: u32 = reader.read_f32()?;
        let name: String = reader.read_char_array()?;
        Ok(
            UnityShaderSerializedShaderFloatValue {
                val,
                name,
            },
        )
    }
}

/// The blend state of one render target.
#[derive(Clone, Debug)]
pub struct UnityShaderSerializedShaderRTBlendState {
    pub src_blend: UnityShaderSerializedShaderFloatValue,
    pub dest_blend: UnityShaderSerializedShaderFloatValue,
    pub src_blend_alpha: UnityShaderSerializedShaderFloatValue,
    pub dest_blend_alpha: UnityShaderSerializedShaderFloatValue,
    pub blend_op: UnityShaderSerializedShaderFloatValue,
    pub blend_op_alpha: UnityShaderSerializedShaderFloatValue,
    pub col_mask: UnityShaderSerializedShaderFloatValue,
}

/// The value of a [`UnityShaderSerializedShaderRTBlendState`].
pub struct UnityShaderSerializedShaderRTBlendStateView {
    pub src_blend: UnityShaderSerializedShaderFloatValueView,
    pub dest_blend: UnityShaderSerializedShaderFloatValueView,
    pub src_blend_alpha: UnityShaderSerializedShaderFloatValueView,
    pub dest_blend_alpha: UnityShaderSerializedShaderFloatValueView,
    pub blend_op: UnityShaderSerializedShaderFloatValueView,
    pub blend_op_alpha: UnityShaderSerializedShaderFloatValueView,
    pub col_mask: UnityShaderSerializedShaderFloatValueView,
}

impl DeepView for UnityShaderSerializedShaderRTBlendState {
    type V = UnityShaderSerializedShaderRTBlendStateView;

    open spec fn deep_view(&self) -> UnityShaderSerializedShaderRTBlendStateView {
        UnityShaderSerializedShaderRTBlendStateView {
            src_blend: self.src_blend.deep_view(),
            dest_blend: self.dest_blend.deep_view(),
            src_blend_alpha: self.src_blend_alpha.deep_view(),
            dest_blend_alpha: self.dest_blend_alpha.deep_view(),
            blend_op: self.blend_op.deep_view(),
            blend_op_alpha: self.blend_op_alpha.deep_view(),
            col_mask: self.col_mask.deep_view(),
        }
    }
}

impl Layout for UnityShaderSerializedShaderRTBlendState {
    /// Seven float values: source, destination, source alpha, destination
    /// alpha, blend operation, alpha blend operation, colour mask.
    #[verifier::opaque]
    open spec fn wire(data: Seq<u8>, endian: Endianness, version: UnityVersion, pos: nat) -> Wire<
        UnityShaderSerializedShaderRTBlendStateView,
    > {
        let s0 = Step::at(pos);
        let (src_blend, s1) = step(
            s0,
            UnityShaderSerializedShaderFloatValue::wire(data, endian, version, s0.pos),
        );
        let (dest_blend, s2) = step(
            s1,
            UnityShaderSerializedShaderFloatValue::wire(data, endian, version, s1.pos),
        );
        let (src_blend_alpha, s3) = step(
            s2,
            UnityShaderSerializedShaderFloatValue::wire(data, endian, version, s2.pos),
        );
        let (dest_blend_alpha, s4) = step(
            s3,
            UnityShaderSerializedShaderFloatValue::wire(data, endian, version, s3.pos),
        );
        let (blend_op, s5) = step(
            s4,
            UnityShaderSerializedShaderFloatValue::wire(data, endian, version, s4.pos),
        );
        let (blend_op_alpha, s6) = step(
            s5,
            UnityShaderSerializedShaderFloatValue::wire(data, endian, version, s5.pos),
        );
        let (col_mask, s7) = step(
            s6,
            UnityShaderSerializedShaderFloatValue::wire(data, endian, version, s6.pos),
        );
        s7.finish(
            UnityShaderSerializedShaderRTBlendStateView {
                src_blend,
                dest_blend,
                src_blend_alpha,
                dest_blend_alpha,
                blend_op,
                blend_op_alpha,
                col_mask,
            },
        )
    }
}

impl Deserialize for UnityShaderSerializedShaderRTBlendState {
    fn deserialize(reader: &mut AssetReader, asset: &AssetInfo) -> (r: Result<
        Self,
        AssetReaderError,
    >) {
        proof {
            reveal(<UnityShaderSerializedShaderRTBlendState as Layout>::wire);
        }
        let src_blend: UnityShaderSerializedShaderFloatValue =
            UnityShaderSerializedShaderFloatValue::deserialize(reader, asset)?;
        let dest_blend: UnityShaderSerializedShaderFloatValue =
            UnityShaderSerializedShaderFloatValue::deserialize(reader, asset)?;
        let src_blend_alpha: UnityShaderSerializedShaderFloatValue =
            UnityShaderSerializedShaderFloatValue::deserialize(reader, asset)?;
        let dest_blend_alpha: UnityShaderSerializedShaderFloatValue =
            UnityShaderSerializedShaderFloatValue::deserialize(reader, asset)?;
        let blend_op: UnityShaderSerializedShaderFloatValue =
            UnityShaderSerializedShaderFloatValue::deserialize(reader, asset)?;
        let blend_op_alpha: UnityShaderSerializedShaderFloatValue =
            UnityShaderSerializedShaderFloatValue::deserialize(reader, asset)?;
        let col_mask: UnityShaderSerializedShaderFloatValue =
            UnityShaderSerializedShaderFloatValue::deserialize(reader, asset)?;
        Ok(
            UnityShaderSerializedShaderRTBlendState {
                src_blend,
                dest_blend,
                src_blend_alpha,
                dest_blend_alpha,
                blend_op,
                blend_op_alpha,
                col_mask,
            },
        )
    }
}

/// The stencil operations of one face.
#[derive(Clone, Debug)]
pub struct UnityShaderSerializedStencilOp {
    pub pass: UnityShaderSerializedShaderFloatValue,
    pub fail: UnityShaderSerializedShaderFloatValue,
    pub z_fail: UnityShaderSerializedShaderFloatValue,
    pub comp: UnityShaderSerializedShaderFloatValue,
}

/// The value of a [`UnityShaderSerializedStencilOp`].
pub struct UnityShaderSerializedStencilOpView {
    pub pass: UnityShaderSerializedShaderFloatValueView,
    pub fail: UnityShaderSerializedShaderFloatValueView,
    pub z_fail: UnityShaderSerializedShaderFloatValueView,
    pub comp: UnityShaderSerializedShaderFloatValueView,
}

impl DeepView for UnityShaderSerializedStencilOp {
    type V = UnityShaderSerializedStencilOpView;

    open spec fn deep_view(&self) -> UnityShaderSerializedStencilOpView {
        UnityShaderSerializedStencilOpView {
            pass: self.pass.deep_view(),
            fail: self.fail.deep_view(),
            z_fail: self.z_fail.deep_view(),
            comp: self.comp.deep_view(),
        }
    }
}

impl Layout for UnityShaderSerializedStencilOp {
    /// Four float values: pass, fail, depth fail, comparison.
    #[verifier::opaque]
    open spec fn wire(data: Seq<u8>, endian: Endianness, version: UnityVersion, pos: nat) -> Wire<
        UnityShaderSerializedStencilOpView,
    > {
        let s0 = Step::at(pos);
        let (pass, s1) = step(
            s0,
            UnityShaderSerializedShaderFloatValue::wire(data, endian, version, s0.pos),
        );
        let (fail, s2) = step(
            s1,
            UnityShaderSerializedShaderFloatValue::wire(data, endian, version, s1.pos),
        );
        let (z_fail, s3) = step(
            s2,
            UnityShaderSerializedShaderFloatValue::wire(data, endian, version, s2.pos),
        );
        let (comp, s4) = step(
            s3,
            UnityShaderSerializedShaderFloatValue::wire(data, endian, version, s3.pos),
        );
        s4.finish(
            UnityShaderSerializedStencilOpView {
                pass,
                fail,
                z_fail,
                comp,
            },
        )
    }
}

impl Deserialize for UnityShaderSerializedStencilOp {
    fn deserialize(reader: &mut AssetReader, asset: &AssetInfo) -> (r: Result<
        Self,
        AssetReaderError,
    >) {
        proof {
            reveal(<UnityShaderSerializedStencilOp as Layout>::wire);
        }
        let pass: UnityShaderSerializedShaderFloatValue =
            UnityShaderSerializedShaderFloatValue::deserialize(reader, asset)?;
        let fail: UnityShaderSerializedShaderFloatValue =
            UnityShaderSerializedShaderFloatValue::deserialize(reader, asset)?;
        let z_fail: UnityShaderSerializedShaderFloatValue =
            UnityShaderSerializedShaderFloatValue::deserialize(reader, asset)?;
        let comp: UnityShaderSerializedShaderFloatValue =
            UnityShaderSerializedShaderFloatValue::deserialize(reader, asset)?;
        Ok(
            UnityShaderSerializedStencilOp {
                pass,
                fail,
                z_fail,
                comp,
            },
        )
    }
}

/// Four float values and the name of the property that the vector is bound to.
#[derive(Clone, Debug)]
pub struct UnityShaderSerializedShaderVectorValue {
    pub x: UnityShaderSerializedShaderFloatValue,
    pub y: UnityShaderSerializedShaderFloatValue,
    pub z: UnityShaderSerializedShaderFloatValue,
    pub w: UnityShaderSerializedShaderFloatValue,
    pub name: String,
}

/// The value of a [`UnityShaderSerializedShaderVectorValue`].
pub struct UnityShaderSerializedShaderVectorValueView {
    pub x: UnityShaderSerializedShaderFloatValueView,
    pub y: UnityShaderSerializedShaderFloatValueView,
    pub z: UnityShaderSerializedShaderFloatValueView,
    pub w: UnityShaderSerializedShaderFloatValueView,
    pub name: Seq<char>,
}

impl DeepView for UnityShaderSerializedShaderVectorValue {
    type V = UnityShaderSerializedShaderVectorValueView;

    open spec fn deep_view(&self) -> UnityShaderSerializedShaderVectorValueView {
        UnityShaderSerializedShaderVectorValueView {
            x: self.x.deep_view(),
            y: self.y.deep_view(),
            z: self.z.deep_view(),
            w: self.w.deep_view(),
            name: self.name.deep_view(),
        }
    }
}

impl Layout for UnityShaderSerializedShaderVectorValue {
    /// Four float values, then the name as a string.
    #[verifier::opaque]
    open spec fn wire(data: Seq<u8>, endian: Endianness, version: UnityVersion, pos: nat) -> Wire<
        UnityShaderSerializedShaderVectorValueView,
    > {
        let s0 = Step::at(pos);
        let (x, s1) = step(
            s0,
            UnityShaderSerializedShaderFloatValue::wire(data, endian, version, s0.pos),
        );
        let (y, s2) = step(
            s1,
            UnityShaderSerializedShaderFloatValue::wire(data, endian, version, s1.pos),
        );
        let (z, s3) = step(
            s2,
            UnityShaderSerializedShaderFloatValue::wire(data, endian, version, s2.pos),
        );
        let (w, s4) = step(
            s3,
            UnityShaderSerializedShaderFloatValue::wire(data, endian, version, s3.pos),
        );
        let (name, s5) = step(s4, wire_char_array(data, endian, s4.pos));
        s5.finish(
            UnityShaderSerializedShaderVectorValueView {
                x,
                y,
                z,
                w,
                name,
            },
        )
    }
}

impl Deserialize for UnityShaderSerializedShaderVectorValue {
    fn deserialize(reader: &mut AssetReader, asset: &AssetInfo) -> (r: Result<
        Self,
        AssetReaderError,
    >) {
        proof {
            reveal(<UnityShaderSerializedShaderVectorValue as Layout>::wire);
        }
        let x: UnityShaderSerializedShaderFloatValue =
            UnityShaderSerializedShaderFloatValue::deserialize(reader, asset)?;
        let y: UnityShaderSerializedShaderFloatValue =
            UnityShaderSerializedShaderFloatValue::deserialize(reader, asset)?;
        let z: UnityShaderSerializedShaderFloatValue =
            UnityShaderSerializedShaderFloatValue::deserialize(reader, asset)?;
        let w: UnityShaderSerializedShaderFloatValue =
            UnityShaderSerializedShaderFloatValue::deserialize(reader, asset)?;
        let name: String = reader.read_char_array()?;
        Ok(
            UnityShaderSerializedShaderVectorValue {
                x,
                y,
                z,
                w,
                name,
            },
        )
    }
}

/// How fog is computed in a pass.
#[derive(Clone, Copy, Debug, PartialEq, Eq, Structural)]
pub enum UnityShaderFogMode {
    Unknown,
    Disabled,
    Linear,
    Exp,
    Exp2,
}

impl UnityShaderFogMode {
    /// The number that stands for the value on the wire.
    pub open spec fn index(self) -> int {
        match self {
            UnityShaderFogMode::Unknown => -1,
            UnityShaderFogMode::Disabled => 0,
            UnityShaderFogMode::Linear => 1,
            UnityShaderFogMode::Exp => 2,
            UnityShaderFogMode::Exp2 => 3,
        }
    }
}

/// The fog mode that the number `value` stands for: -1 to 3 each stand for one,
/// no other number does.
pub open spec fn fog_mode_of(value: i32) -> Option<UnityShaderFogMode> {
    if value == -1 {
        Some(UnityShaderFogMode::Unknown)
    } else if value == 0 {
        Some(UnityShaderFogMode::Disabled)
    } else if value == 1 {
        Some(UnityShaderFogMode::Linear)
    } else if value == 2 {
        Some(UnityShaderFogMode::Exp)
    } else if value == 3 {
        Some(UnityShaderFogMode::Exp2)
    } else {
        None
    }
}

/// Message of the failure on a number that stands for no such value.
pub open spec fn unrecognized_fog_mode() -> Seq<char> {
    "unrecognized fog mode"@
}

/// The numbers -1 to 3 are mapped, each to the fog mode with that index, and no
/// other number is; every fog mode is the image of its index.
pub proof fn fog_mode_domain(value: i32, x: UnityShaderFogMode)
    ensures
        fog_mode_of(value) is Some <==> -1 <= value <= 3,
        fog_mode_of(value) matches Some(t) ==> t.index() == value,
        fog_mode_of(x.index() as i32) == Some(x),
{
}

impl DeepView for UnityShaderFogMode {
    type V = UnityShaderFogMode;

    open spec fn deep_view(&self) -> UnityShaderFogMode {
        *self
    }
}

impl Layout for UnityShaderFogMode {
    /// An `i32` that must stand for a fog mode.
    open spec fn wire(data: Seq<u8>, endian: Endianness, version: UnityVersion, pos: nat) -> Wire<
        UnityShaderFogMode,
    > {
        match wire_i32(data, endian, pos) {
            Err(e) => Err(e),
            Ok((raw, p)) => match fog_mode_of(raw) {
                Some(t) => Ok((t, p)),
                None => Err(Failure::DeserializationError(unrecognized_fog_mode())),
            },
        }
    }
}

impl Deserialize for UnityShaderFogMode {
    fn deserialize(reader: &mut AssetReader, asset: &AssetInfo) -> (r: Result<
        Self,
        AssetReaderError,
    >) {
        let raw: i32 = reader.read_i32()?;
        UnityShaderSerializedShaderState::get_fog_mode(raw)
    }
}

impl UnityShaderSerializedShaderState {
    /// The fog mode that `value` stands for; a failure for a number outside -1
    /// to 3.
    pub fn get_fog_mode(value: i32) -> (r: Result<UnityShaderFogMode, AssetReaderError>)
        ensures
            match fog_mode_of(value) {
                Some(t) => r is Ok && r->Ok_0 == t,
                None => r is Err && r->Err_0@ == Failure::DeserializationError(unrecognized_fog_mode()),
            },
    {
        if value == -1 {
            Ok(UnityShaderFogMode::Unknown)
        } else if value == 0 {
            Ok(UnityShaderFogMode::Disabled)
        } else if value == 1 {
            Ok(UnityShaderFogMode::Linear)
        } else if value == 2 {
            Ok(UnityShaderFogMode::Exp)
        } else if value == 3 {
            Ok(UnityShaderFogMode::Exp2)
        } else {
            Err(malformed("unrecognized fog mode"))
        }
    }
}

/// The render state of a pass.
#[derive(Clone, Debug)]
pub struct UnityShaderSerializedShaderState {
    pub name: String,
    /// The blend states of the eight render targets.
    pub rt_blend: [UnityShaderSerializedShaderRTBlendState; 8],
    pub rt_separate_blend: bool,
    /// Present from engine 2017.2.
    pub z_clip: Option<UnityShaderSerializedShaderFloatValue>,
    pub z_test: UnityShaderSerializedShaderFloatValue,
    pub z_write: UnityShaderSerializedShaderFloatValue,
    pub culling: UnityShaderSerializedShaderFloatValue,
    /// Present from engine 2020.
    pub conservative: Option<UnityShaderSerializedShaderFloatValue>,
    pub offset_factor: UnityShaderSerializedShaderFloatValue,
    pub offset_units: UnityShaderSerializedShaderFloatValue,
    pub alpha_to_mask: UnityShaderSerializedShaderFloatValue,
    pub stencil_op: UnityShaderSerializedStencilOp,
    pub stencil_op_front: UnityShaderSerializedStencilOp,
    pub stencil_op_back: UnityShaderSerializedStencilOp,
    pub stencil_read_mask: UnityShaderSerializedShaderFloatValue,
    pub stencil_write_mask: UnityShaderSerializedShaderFloatValue,
    pub stencil_ref: UnityShaderSerializedShaderFloatValue,
    pub fog_start: UnityShaderSerializedShaderFloatValue,
    pub fog_end: UnityShaderSerializedShaderFloatValue,
    pub fog_density: UnityShaderSerializedShaderFloatValue,
    pub fog_color: UnityShaderSerializedShaderVectorValue,
    pub fog_mode: UnityShaderFogMode,
    pub gpu_program_id: i32,
    pub tags: OMap<String, String>,
    pub lod: i32,
    pub lighting: bool,
}

/// The value of a [`UnityShaderSerializedShaderState`].
pub struct UnityShaderSerializedShaderStateView {
    pub name: Seq<char>,
    pub rt_blend: Seq<UnityShaderSerializedShaderRTBlendStateView>,
    pub rt_separate_blend: bool,
    pub z_clip: Option<UnityShaderSerializedShaderFloatValueView>,
    pub z_test: UnityShaderSerializedShaderFloatValueView,
    pub z_write: UnityShaderSerializedShaderFloatValueView,
    pub culling: UnityShaderSerializedShaderFloatValueView,
    pub conservative: Option<UnityShaderSerializedShaderFloatValueView>,
    pub offset_factor: UnityShaderSerializedShaderFloatValueView,
    pub offset_units: UnityShaderSerializedShaderFloatValueView,
    pub alpha_to_mask: UnityShaderSerializedShaderFloatValueView,
    pub stencil_op: UnityShaderSerializedStencilOpView,
    pub stencil_op_front: UnityShaderSerializedStencilOpView,
    pub stencil_op_back: UnityShaderSerializedStencilOpView,
    pub stencil_read_mask: UnityShaderSerializedShaderFloatValueView,
    pub stencil_write_mask: UnityShaderSerializedShaderFloatValueView,
    pub stencil_ref: UnityShaderSerializedShaderFloatValueView,
    pub fog_start: UnityShaderSerializedShaderFloatValueView,
    pub fog_end: UnityShaderSerializedShaderFloatValueView,
    pub fog_density: UnityShaderSerializedShaderFloatValueView,
    pub fog_color: UnityShaderSerializedShaderVectorValueView,
    pub fog_mode: UnityShaderFogMode,
    pub gpu_program_id: i32,
    pub tags: Seq<(Seq<char>, Seq<char>)>,
    pub lod: i32,
    pub lighting: bool,
}

impl DeepView for UnityShaderSerializedShaderState {
    type V = UnityShaderSerializedShaderStateView;

    open spec fn deep_view(&self) -> UnityShaderSerializedShaderStateView {
        UnityShaderSerializedShaderStateView {
            name: self.name.deep_view(),
            rt_blend: self.rt_blend.deep_view(),
            rt_separate_blend: self.rt_separate_blend,
            z_clip: self.z_clip.deep_view(),
            z_test: self.z_test.deep_view(),
            z_write: self.z_write.deep_view(),
            culling: self.culling.deep_view(),
            conservative: self.conservative.deep_view(),
            offset_factor: self.offset_factor.deep_view(),
            offset_units: self.offset_units.deep_view(),
            alpha_to_mask: self.alpha_to_mask.deep_view(),
            stencil_op: self.stencil_op.deep_view(),
            stencil_op_front: self.stencil_op_front.deep_view(),
            stencil_op_back: self.stencil_op_back.deep_view(),
            stencil_read_mask: self.stencil_read_mask.deep_view(),
            stencil_write_mask: self.stencil_write_mask.deep_view(),
            stencil_ref: self.stencil_ref.deep_view(),
            fog_start: self.fog_start.deep_view(),
            fog_end: self.fog_end.deep_view(),
            fog_density: self.fog_density.deep_view(),
            fog_color: self.fog_color.deep_view(),
            fog_mode: self.fog_mode,
            gpu_program_id: self.gpu_program_id,
            tags: self.tags.deep_view(),
            lod: self.lod,
            lighting: self.lighting,
        }
    }
}

impl Layout for UnityShaderSerializedShaderState {
    /// The name; the blend states of the eight render targets; the separate-
    /// blend flag and alignment to 4; from 2017.2 the depth clip; depth test,
    /// depth write and culling; from 2020 the conservative flag; offset factor,
    /// offset units and alpha-to-mask; the stencil operations combined, front
    /// and back; stencil read mask, write mask and reference; fog start, end
    /// and density; the fog colour; the fog mode; the GPU program id; the tags;
    /// the LOD; the lighting flag and alignment to 4.
    #[verifier::opaque]
    open spec fn wire(data: Seq<u8>, endian: Endianness, version: UnityVersion, pos: nat) -> Wire<
        UnityShaderSerializedShaderStateView,
    > {
        let s0 = Step::at(pos);
        let (name, s1) = step(s0, wire_char_array(data, endian, s0.pos));
        let (rt_blend_0, s2) = step(
            s1,
            UnityShaderSerializedShaderRTBlendState::wire(data, endian, version, s1.pos),
        );
        let (rt_blend_1, s3) = step(
            s2,
            UnityShaderSerializedShaderRTBlendState::wire(data, endian, version, s2.pos),
        );
        let (rt_blend_2, s4) = step(
            s3,
            UnityShaderSerializedShaderRTBlendState::wire(data, endian, version, s3.pos),
        );
        let (rt_blend_3, s5) = step(
            s4,
            UnityShaderSerializedShaderRTBlendState::wire(data, endian, version, s4.pos),
        );
        let (rt_blend_4, s6) = step(
            s5,
            UnityShaderSerializedShaderRTBlendState::wire(data, endian, version, s5.pos),
        );
        let (rt_blend_5, s7) = step(
            s6,
            UnityShaderSerializedShaderRTBlendState::wire(data, endian, version, s6.pos),
        );
        let (rt_blend_6, s8) = step(
            s7,
            UnityShaderSerializedShaderRTBlendState::wire(data, endian, version, s7.pos),
        );
        let (rt_blend_7, s9) = step(
            s8,
            UnityShaderSerializedShaderRTBlendState::wire(data, endian, version, s8.pos),
        );
        let (rt_separate_blend, s10) = step(s9, wire_bool(data, s9.pos));
        let (_, s11) = step(s10, wire_align(s10.pos));
        let (z_clip, s12) = step(
            s11,
            wire_opt::<UnityShaderSerializedShaderFloatValue>(
                version.since(2017, 2, 0),
                data,
                endian,
                version,
                s11.pos,
            ),
        );
        let (z_test, s13) = step(
            s12,
            UnityShaderSerializedShaderFloatValue::wire(data, endian, version, s12.pos),
        );
        let (z_write, s14) = step(
            s13,
            UnityShaderSerializedShaderFloatValue::wire(data, endian, version, s13.pos),
        );
        let (culling, s15) = step(
            s14,
            UnityShaderSerializedShaderFloatValue::wire(data, endian, version, s14.pos),
        );
        let (conservative, s16) = step(
            s15,
            wire_opt::<UnityShaderSerializedShaderFloatValue>(
                version.since(2020, 0, 0),
                data,
                endian,
                version,
                s15.pos,
            ),
        );
        let (offset_factor, s17) = step(
            s16,
            UnityShaderSerializedShaderFloatValue::wire(data, endian, version, s16.pos),
        );
        let (offset_units, s18) = step(
            s17,
            UnityShaderSerializedShaderFloatValue::wire(data, endian, version, s17.pos),
        );
        let (alpha_to_mask, s19) = step(
            s18,
            UnityShaderSerializedShaderFloatValue::wire(data, endian, version, s18.pos),
        );
        let (stencil_op, s20) = step(
            s19,
            UnityShaderSerializedStencilOp::wire(data, endian, version, s19.pos),
        );
        let (stencil_op_front, s21) = step(
            s20,
            UnityShaderSerializedStencilOp::wire(data, endian, version, s20.pos),
        );
        let (stencil_op_back, s22) = step(
            s21,
            UnityShaderSerializedStencilOp::wire(data, endian, version, s21.pos),
        );
        let (stencil_read_mask, s23) = step(
            s22,
            UnityShaderSerializedShaderFloatValue::wire(data, endian, version, s22.pos),
        );
        let (stencil_write_mask, s24) = step(
            s23,
            UnityShaderSerializedShaderFloatValue::wire(data, endian, version, s23.pos),
        );
        let (stencil_ref, s25) = step(
            s24,
            UnityShaderSerializedShaderFloatValue::wire(data, endian, version, s24.pos),
        );
        let (fog_start, s26) = step(
            s25,
            UnityShaderSerializedShaderFloatValue::wire(data, endian, version, s25.pos),
        );
        let (fog_end, s27) = step(
            s26,
            UnityShaderSerializedShaderFloatValue::wire(data, endian, version, s26.pos),
        );
        let (fog_density, s28) = step(
            s27,
            UnityShaderSerializedShaderFloatValue::wire(data, endian, version, s27.pos),
        );
        let (fog_color, s29) = step(
            s28,
            UnityShaderSerializedShaderVectorValue::wire(data, endian, version, s28.pos),
        );
        let (fog_mode, s30) = step(s29, UnityShaderFogMode::wire(data, endian, version, s29.pos));
        let (gpu_program_id, s31) = step(s30, wire_i32(data, endian, s30.pos));
        let (tags, s32) = step(s31, <OMap<String, String>>::wire(data, endian, version, s31.pos));
        let (lod, s33) = step(s32, wire_i32(data, endian, s32.pos));
        let (lighting, s34) = step(s33, wire_bool(data, s33.pos));
        let (_, s35) = step(s34, wire_align(s34.pos));
        s35.finish(
            UnityShaderSerializedShaderStateView {
                name,
                rt_blend: seq![
                    rt_blend_0,
                    rt_blend_1,
                    rt_blend_2,
                    rt_blend_3,
                    rt_blend_4,
                    rt_blend_5,
                    rt_blend_6,
                    rt_blend_7,
                ],
                rt_separate_blend,
                z_clip,
                z_test,
                z_write,
                culling,
                conservative,
                offset_factor,
                offset_units,
                alpha_to_mask,
                stencil_op,
                stencil_op_front,
                stencil_op_back,
                stencil_read_mask,
                stencil_write_mask,
                stencil_ref,
                fog_start,
                fog_end,
                fog_density,
                fog_color,
                fog_mode,
                gpu_program_id,
                tags,
                lod,
                lighting,
            },
        )
    }
}

impl Deserialize for UnityShaderSerializedShaderState {
    fn deserialize(reader: &mut AssetReader, asset: &AssetInfo) -> (r: Result<
        Self,
        AssetReaderError,
    >) {
        proof {
            reveal(<UnityShaderSerializedShaderState as Layout>::wire);
        }
        let version: UnityVersion = asset.metadata.unity_version;
        let name: String = reader.read_char_array()?;
        let rt_blend_0: UnityShaderSerializedShaderRTBlendState =
            UnityShaderSerializedShaderRTBlendState::deserialize(reader, asset)?;
        let rt_blend_1: UnityShaderSerializedShaderRTBlendState =
            UnityShaderSerializedShaderRTBlendState::deserialize(reader, asset)?;
        let rt_blend_2: UnityShaderSerializedShaderRTBlendState =
            UnityShaderSerializedShaderRTBlendState::deserialize(reader, asset)?;
        let rt_blend_3: UnityShaderSerializedShaderRTBlendState =
            UnityShaderSerializedShaderRTBlendState::deserialize(reader, asset)?;
        let rt_blend_4: UnityShaderSerializedShaderRTBlendState =
            UnityShaderSerializedShaderRTBlendState::deserialize(reader, asset)?;
        let rt_blend_5: UnityShaderSerializedShaderRTBlendState =
            UnityShaderSerializedShaderRTBlendState::deserialize(reader, asset)?;
        let rt_blend_6: UnityShaderSerializedShaderRTBlendState =
            UnityShaderSerializedShaderRTBlendState::deserialize(reader, asset)?;
        let rt_blend_7: UnityShaderSerializedShaderRTBlendState =
            UnityShaderSerializedShaderRTBlendState::deserialize(reader, asset)?;
        let rt_separate_blend: bool = reader.read_bool()?;
        reader.align()?;
        let z_clip: Option<UnityShaderSerializedShaderFloatValue> =
            read_opt::<UnityShaderSerializedShaderFloatValue>(
                version.is_since(2017, 2, 0),
                reader,
                asset,
            )?;
        let z_test: UnityShaderSerializedShaderFloatValue =
            UnityShaderSerializedShaderFloatValue::deserialize(reader, asset)?;
        let z_write: UnityShaderSerializedShaderFloatValue =
            UnityShaderSerializedShaderFloatValue::deserialize(reader, asset)?;
        let culling: UnityShaderSerializedShaderFloatValue =
            UnityShaderSerializedShaderFloatValue::deserialize(reader, asset)?;
        let conservative: Option<UnityShaderSerializedShaderFloatValue> =
            read_opt::<UnityShaderSerializedShaderFloatValue>(
                version.is_since(2020, 0, 0),
                reader,
                asset,
            )?;
        let offset_factor: UnityShaderSerializedShaderFloatValue =
            UnityShaderSerializedShaderFloatValue::deserialize(reader, asset)?;
        let offset_units: UnityShaderSerializedShaderFloatValue =
            UnityShaderSerializedShaderFloatValue::deserialize(reader, asset)?;
        let alpha_to_mask: UnityShaderSerializedShaderFloatValue =
            UnityShaderSerializedShaderFloatValue::deserialize(reader, asset)?;
        let stencil_op: UnityShaderSerializedStencilOp =
            UnityShaderSerializedStencilOp::deserialize(reader, asset)?;
        let stencil_op_front: UnityShaderSerializedStencilOp =
            UnityShaderSerializedStencilOp::deserialize(reader, asset)?;
        let stencil_op_back: UnityShaderSerializedStencilOp =
            UnityShaderSerializedStencilOp::deserialize(reader, asset)?;
        let stencil_read_mask: UnityShaderSerializedShaderFloatValue =
            UnityShaderSerializedShaderFloatValue::deserialize(reader, asset)?;
        let stencil_write_mask: UnityShaderSerializedShaderFloatValue =
            UnityShaderSerializedShaderFloatValue::deserialize(reader, asset)?;
        let stencil_ref: UnityShaderSerializedShaderFloatValue =
            UnityShaderSerializedShaderFloatValue::deserialize(reader, asset)?;
        let fog_start: UnityShaderSerializedShaderFloatValue =
            UnityShaderSerializedShaderFloatValue::deserialize(reader, asset)?;
        let fog_end: UnityShaderSerializedShaderFloatValue =
            UnityShaderSerializedShaderFloatValue::deserialize(reader, asset)?;
        let fog_density: UnityShaderSerializedShaderFloatValue =
            UnityShaderSerializedShaderFloatValue::deserialize(reader, asset)?;
        let fog_color: UnityShaderSerializedShaderVectorValue =
            UnityShaderSerializedShaderVectorValue::deserialize(reader, asset)?;
        let fog_mode: UnityShaderFogMode = UnityShaderFogMode::deserialize(reader, asset)?;
        let gpu_program_id: i32 = reader.read_i32()?;
        let tags: OMap<String, String> = <OMap<String, String>>::deserialize(reader, asset)?;
        let lod: i32 = reader.read_i32()?;
        let lighting: bool = reader.read_bool()?;
        reader.align()?;
        let rt_blend: [
            UnityShaderSerializedShaderRTBlendState; 8] = [rt_blend_0,
            rt_blend_1,
            rt_blend_2,
            rt_blend_3,
            rt_blend_4,
            rt_blend_5,
            rt_blend_6,
            rt_blend_7,
        ];
        proof {
            assert(rt_blend.deep_view() =~= seq![
                rt_blend_0.deep_view(),
                rt_blend_1.deep_view(),
                rt_blend_2.deep_view(),
                rt_blend_3.deep_view(),
                rt_blend_4.deep_view(),
                rt_blend_5.deep_view(),
                rt_blend_6.deep_view(),
                rt_blend_7.deep_view(),
            ]);
        }
        Ok(
            UnityShaderSerializedShaderState {
                name,
                rt_blend,
                rt_separate_blend,
                z_clip,
                z_test,
                z_write,
                culling,
                conservative,
                offset_factor,
                offset_units,
                alpha_to_mask,
                stencil_op,
                stencil_op_front,
                stencil_op_back,
                stencil_read_mask,
                stencil_write_mask,
                stencil_ref,
                fog_start,
                fog_end,
                fog_density,
                fog_color,
                fog_mode,
                gpu_program_id,
                tags,
                lod,
                lighting,
            },
        )
    }
}

/// The default texture of a shader property.
#[derive(Clone, Debug)]
pub struct UnityShaderSerializedTextureProperty {
    pub name: String,
    pub dimension: u32,
}

/// The value of a [`UnityShaderSerializedTextureProperty`].
pub struct UnityShaderSerializedTexturePropertyView {
    pub name: Seq<char>,
    pub dimension: u32,
}

impl DeepView for UnityShaderSerializedTextureProperty {
    type V = UnityShaderSerializedTexturePropertyView;

    open spec fn deep_view(&self) -> UnityShaderSerializedTexturePropertyView {
        UnityShaderSerializedTexturePropertyView {
            name: self.name.deep_view(),
            dimension: self.dimension,
        }
    }
}

impl Layout for UnityShaderSerializedTextureProperty {
    /// The name as a string, then a `u32` dimension.
    #[verifier::opaque]
    open spec fn wire(data: Seq<u8>, endian: Endianness, version: UnityVersion, pos: nat) -> Wire<
        UnityShaderSerializedTexturePropertyView,
    > {
        let s0 = Step::at(pos);
        let (name, s1) = step(s0, wire_char_array(data, endian, s0.pos));
        let (dimension, s2) = step(s1, wire_u32(data, endian, s1.pos));
        s2.finish(
            UnityShaderSerializedTexturePropertyView {
                name,
                dimension,
            },
        )
    }
}

impl Deserialize for UnityShaderSerializedTextureProperty {
    fn deserialize(reader: &mut AssetReader, asset: &AssetInfo) -> (r: Result<
        Self,
        AssetReaderError,
    >) {
        proof {
            reveal(<UnityShaderSerializedTextureProperty as Layout>::wire);
        }
        let name: String = reader.read_char_array()?;
        let dimension: u32 = reader.read_u32()?;
        Ok(
            UnityShaderSerializedTextureProperty {
                name,
                dimension,
            },
        )
    }
}

/// A property that a shader declares.
#[derive(Clone, Debug)]
pub struct UnityShaderSerializedProperty {
    pub name: String,
    pub description: String,
    pub attributes: Vec<String>,
    pub prop_type: u32,
    pub flags: u32,
    /// The default value: four binary32 bit patterns.
    pub def_value: [u32; 4],
    pub def_texture: UnityShaderSerializedTextureProperty,
}

/// The value of a [`UnityShaderSerializedProperty`].
pub struct UnityShaderSerializedPropertyView {
    pub name: Seq<char>,
    pub description: Seq<char>,
    pub attributes: Seq<Seq<char>>,
    pub prop_type: u32,
    pub flags: u32,
    pub def_value: Seq<u32>,
    pub def_texture: UnityShaderSerializedTexturePropertyView,
}

impl DeepView for UnityShaderSerializedProperty {
    type V = UnityShaderSerializedPropertyView;

    open spec fn deep_view(&self) -> UnityShaderSerializedPropertyView {
        UnityShaderSerializedPropertyView {
            name: self.name.deep_view(),
            description: self.description.deep_view(),
            attributes: self.attributes.deep_view(),
            prop_type: self.prop_type,
            flags: self.flags,
            def_value: self.def_value.deep_view(),
            def_texture: self.def_texture.deep_view(),
        }
    }
}

impl Layout for UnityShaderSerializedProperty {
    /// Name and description as strings, the attributes as an array of strings,
    /// `u32` type and flags, four binary32 default values, and the default
    /// texture.
    #[verifier::opaque]
    open spec fn wire(data: Seq<u8>, endian: Endianness, version: UnityVersion, pos: nat) -> Wire<
        UnityShaderSerializedPropertyView,
    > {
        let s0 = Step::at(pos);
        let (name, s1) = step(s0, wire_char_array(data, endian, s0.pos));
        let (description, s2) = step(s1, wire_char_array(data, endian, s1.pos));
        let (attributes, s3) = step(s2, wire_array::<String>(data, endian, version, s2.pos));
        let (prop_type, s4) = step(s3, wire_u32(data, endian, s3.pos));
        let (flags, s5) = step(s4, wire_u32(data, endian, s4.pos));
        let (def_value_0, s6) = step(s5, wire_u32(data, endian, s5.pos));
        let (def_value_1, s7) = step(s6, wire_u32(data, endian, s6.pos));
        let (def_value_2, s8) = step(s7, wire_u32(data, endian, s7.pos));
        let (def_value_3, s9) = step(s8, wire_u32(data, endian, s8.pos));
        let (def_texture, s10) = step(
            s9,
            UnityShaderSerializedTextureProperty::wire(data, endian, version, s9.pos),
        );
        s10.finish(
            UnityShaderSerializedPropertyView {
                name,
                description,
                attributes,
                prop_type,
                flags,
                def_value: seq![def_value_0, def_value_1, def_value_2, def_value_3],
                def_texture,
            },
        )
    }
}

impl Deserialize for UnityShaderSerializedProperty {
    fn deserialize(reader: &mut AssetReader, asset: &AssetInfo) -> (r: Result<
        Self,
        AssetReaderError,
    >) {
        proof {
            reveal(<UnityShaderSerializedProperty as Layout>::wire);
        }
        let name: String = reader.read_char_array()?;
        let description: String = reader.read_char_array()?;
        let attributes: Vec<String> = String::deserialize_array(reader, asset)?;
        let prop_type: u32 = reader.read_u32()?;
        let flags: u32 = reader.read_u32()?;
        let def_value_0: u32 = reader.read_f32()?;
        let def_value_1: u32 = reader.read_f32()?;
        let def_value_2: u32 = reader.read_f32()?;
        let def_value_3: u32 = reader.read_f32()?;
        let def_texture: UnityShaderSerializedTextureProperty =
            UnityShaderSerializedTextureProperty::deserialize(reader, asset)?;
        let def_value: [u32; 4] = [def_value_0, def_value_1, def_value_2, def_value_3];
        proof {
            assert(def_value.deep_view() =~= seq![
                def_value_0,
                def_value_1,
                def_value_2,
                def_value_3,
            ]);
        }
        Ok(
            UnityShaderSerializedProperty {
                name,
                description,
                attributes,
                prop_type,
                flags,
                def_value,
                def_texture,
            },
        )
    }
}

/// A 128-bit hash.
#[derive(Clone, Debug)]
pub struct Hash128 {
    pub value: [u8; 16],
}

/// The value of a [`Hash128`]: its 16 bytes.
pub struct Hash128View {
    pub value: Seq<u8>,
}

impl DeepView for Hash128 {
    type V = Hash128View;

    open spec fn deep_view(&self) -> Hash128View {
        Hash128View { value: self.value@ }
    }
}

impl Layout for Hash128 {
    /// 16 raw bytes.
    open spec fn wire(data: Seq<u8>, endian: Endianness, version: UnityVersion, pos: nat) -> Wire<
        Hash128View,
    > {
        match wire_bytes(data, pos, 16) {
            Err(e) => Err(e),
            Ok((value, p)) => Ok((Hash128View { value }, p)),
        }
    }
}

impl Deserialize for Hash128 {
    fn deserialize(reader: &mut AssetReader, asset: &AssetInfo) -> (r: Result<
        Self,
        AssetReaderError,
    >) {
        proof {
            reveal(wire_bytes);
        }
        let bytes: Vec<u8> = reader.read_bytes(16)?;
        let mut value: [u8; 16] = [0u8; 16];
        let mut i: usize = 0;
        while i < 16
            invariant
                i <= 16,
                bytes@.len() == 16,
                forall|j: int| 0 <= j < i ==> value@[j] == bytes@[j],
            decreases 16 - i,
        {
            value[i] = bytes[i];
            i += 1;
        }
        assert(value@ =~= bytes@);
        Ok(Hash128 { value })
    }
}

/// What precedes a pass from engine 2020.2 on, all of it dropped: the editor
/// data hashes as an array of [`Hash128`] and alignment to 4, the platforms
/// as aligned bytes, and before 2021.2 the local and the global keyword mask,
/// each an array of `u16` followed by alignment to 4.
pub open spec fn wire_pass_prelude(
    data: Seq<u8>,
    endian: Endianness,
    version: UnityVersion,
    pos: nat,
) -> Wire<()> {
    if !version.since(2020, 2, 0) {
        Ok(((), pos))
    } else {
        let masks = !version.since(2021, 2, 0);
        let s0 = Step::at(pos);
        let (_, s1) = step(s0, wire_array::<Hash128>(data, endian, version, s0.pos));
        let (_, s2) = step(s1, wire_align(s1.pos));
        let (_, s3) = step(s2, wire_aligned_bytes(data, endian, s2.pos));
        let (_, s4) = step(s3, wire_opt_u16s(masks, data, endian, true, s3.pos));
        let (_, s5) = step(s4, wire_opt_u16s(masks, data, endian, true, s4.pos));
        s5.finish(())
    }
}

/// Walks over what precedes a pass.
pub fn skip_pass_prelude(reader: &mut AssetReader, asset: &AssetInfo) -> (r: Result<
    (),
    AssetReaderError,
>)
    ensures
        moved(
            *old(reader),
            *final(reader),
            r,
            wire_pass_prelude(
                old(reader).bytes(),
                old(reader).endian(),
                asset.metadata.unity_version,
                old(reader).pos(),
            ),
        ),
{
    let version: UnityVersion = asset.metadata.unity_version;
    if version.is_since(2020, 2, 0) {
        let masks: bool = !version.is_since(2021, 2, 0);
        let _editor_data_hash: Vec<Hash128> = Hash128::deserialize_array(reader, asset)?;
        reader.align()?;
        let _platforms: Vec<u8> = read_aligned_bytes(reader)?;
        let _local_keyword_mask: Option<Vec<u16>> = read_opt_u16s(masks, true, reader)?;
        let _global_keyword_mask: Option<Vec<u16>> = read_opt_u16s(masks, true, reader)?;
    }
    Ok(())
}

/// One pass of a sub-shader.
#[derive(Clone, Debug)]
pub struct UnityShaderSerializedPass {
    pub name_indices: OMap<String, i32>,
    pub typ: UnityShaderPassType,
    pub state: UnityShaderSerializedShaderState,
    pub program_mask: u32,
    pub prog_vertex: UnityShaderSerializedProgram,
    pub prog_fragment: UnityShaderSerializedProgram,
    pub prog_geometry: UnityShaderSerializedProgram,
    pub prog_hull: UnityShaderSerializedProgram,
    pub prog_domain: UnityShaderSerializedProgram,
    /// Present from engine 2019.3.
    pub prog_ray_tracing: Option<UnityShaderSerializedProgram>,
    pub has_instancing_variant: bool,
    /// Present from engine 2018.
    pub has_procedural_instancing_variant: Option<bool>,
    pub use_name: String,
    pub name: String,
    pub texture_name: String,
    pub tags: OMap<String, String>,
    /// Present from engine 2021.2.
    pub serialized_keyword_state_mask: Option<Vec<u16>>,
}

/// The value of a [`UnityShaderSerializedPass`].
pub struct UnityShaderSerializedPassView {
    pub name_indices: Seq<(Seq<char>, i32)>,
    pub typ: UnityShaderPassType,
    pub state: UnityShaderSerializedShaderStateView,
    pub program_mask: u32,
    pub prog_vertex: UnityShaderSerializedProgramView,
    pub prog_fragment: UnityShaderSerializedProgramView,
    pub prog_geometry: UnityShaderSerializedProgramView,
    pub prog_hull: UnityShaderSerializedProgramView,
    pub prog_domain: UnityShaderSerializedProgramView,
    pub prog_ray_tracing: Option<UnityShaderSerializedProgramView>,
    pub has_instancing_variant: bool,
    pub has_procedural_instancing_variant: Option<bool>,
    pub use_name: Seq<char>,
    pub name: Seq<char>,
    pub texture_name: Seq<char>,
    pub tags: Seq<(Seq<char>, Seq<char>)>,
    pub serialized_keyword_state_mask: Option<Seq<u16>>,
}

impl DeepView for UnityShaderSerializedPass {
    type V = UnityShaderSerializedPassView;

    open spec fn deep_view(&self) -> UnityShaderSerializedPassView {
        UnityShaderSerializedPassView {
            name_indices: self.name_indices.deep_view(),
            typ: self.typ,
            state: self.state.deep_view(),
            program_mask: self.program_mask,
            prog_vertex: self.prog_vertex.deep_view(),
            prog_fragment: self.prog_fragment.deep_view(),
            prog_geometry: self.prog_geometry.deep_view(),
            prog_hull: self.prog_hull.deep_view(),
            prog_domain: self.prog_domain.deep_view(),
            prog_ray_tracing: self.prog_ray_tracing.deep_view(),
            has_instancing_variant: self.has_instancing_variant,
            has_procedural_instancing_variant: self.has_procedural_instancing_variant,
            use_name: self.use_name.deep_view(),
            name: self.name.deep_view(),
            texture_name: self.texture_name.deep_view(),
            tags: self.tags.deep_view(),
            serialized_keyword_state_mask: self.serialized_keyword_state_mask.deep_view(),
        }
    }
}

impl Layout for UnityShaderSerializedPass {
    /// The prelude of newer engines; the name indices as an ordered map; the
    /// pass type; the render state; the program mask; the vertex, fragment,
    /// geometry, hull and domain programs; from 2019.3 the ray-tracing program;
    /// the instancing flag; from 2018 the procedural-instancing flag; alignment
    /// to 4; use name, name and texture name; the tags; and from 2021.2 the
    /// keyword state mask as an array of `u16` followed by alignment to 4.
    #[verifier::opaque]
    open spec fn wire(data: Seq<u8>, endian: Endianness, version: UnityVersion, pos: nat) -> Wire<
        UnityShaderSerializedPassView,
    > {
        let s0 = Step::at(pos);
        let (_, s1) = step(s0, wire_pass_prelude(data, endian, version, s0.pos));
        let (name_indices, s2) = step(s1, <OMap<String, i32>>::wire(data, endian, version, s1.pos));
        let (typ, s3) = step(s2, UnityShaderPassType::wire(data, endian, version, s2.pos));
        let (state, s4) = step(
            s3,
            UnityShaderSerializedShaderState::wire(data, endian, version, s3.pos),
        );
        let (program_mask, s5) = step(s4, wire_u32(data, endian, s4.pos));
        let (prog_vertex, s6) = step(
            s5,
            UnityShaderSerializedProgram::wire(data, endian, version, s5.pos),
        );
        let (prog_fragment, s7) = step(
            s6,
            UnityShaderSerializedProgram::wire(data, endian, version, s6.pos),
        );
        let (prog_geometry, s8) = step(
            s7,
            UnityShaderSerializedProgram::wire(data, endian, version, s7.pos),
        );
        let (prog_hull, s9) = step(
            s8,
            UnityShaderSerializedProgram::wire(data, endian, version, s8.pos),
        );
        let (prog_domain, s10) = step(
            s9,
            UnityShaderSerializedProgram::wire(data, endian, version, s9.pos),
        );
        let (prog_ray_tracing, s11) = step(
            s10,
            wire_opt::<UnityShaderSerializedProgram>(
                version.since(2019, 3, 0),
                data,
                endian,
                version,
                s10.pos,
            ),
        );
        let (has_instancing_variant, s12) = step(s11, wire_bool(data, s11.pos));
        let (has_procedural_instancing_variant, s13) = step(
            s12,
            wire_opt::<bool>(version.since(2018, 0, 0), data, endian, version, s12.pos),
        );
        let (_, s14) = step(s13, wire_align(s13.pos));
        let (use_name, s15) = step(s14, wire_char_array(data, endian, s14.pos));
        let (name, s16) = step(s15, wire_char_array(data, endian, s15.pos));
        let (texture_name, s17) = step(s16, wire_char_array(data, endian, s16.pos));
        let (tags, s18) = step(s17, <OMap<String, String>>::wire(data, endian, version, s17.pos));
        let (serialized_keyword_state_mask, s19) = step(
            s18,
            wire_opt_u16s(version.since(2021, 2, 0), data, endian, true, s18.pos),
        );
        s19.finish(
            UnityShaderSerializedPassView {
                name_indices,
                typ,
                state,
                program_mask,
                prog_vertex,
                prog_fragment,
                prog_geometry,
                prog_hull,
                prog_domain,
                prog_ray_tracing,
                has_instancing_variant,
                has_procedural_instancing_variant,
                use_name,
                name,
                texture_name,
                tags,
                serialized_keyword_state_mask,
            },
        )
    }
}

impl Deserialize for UnityShaderSerializedPass {
    fn deserialize(reader: &mut AssetReader, asset: &AssetInfo) -> (r: Result<
        Self,
        AssetReaderError,
    >) {
        proof {
            reveal(<UnityShaderSerializedPass as Layout>::wire);
        }
        let version: UnityVersion = asset.metadata.unity_version;
        skip_pass_prelude(reader, asset)?;
        let name_indices: OMap<String, i32> = <OMap<String, i32>>::deserialize(reader, asset)?;
        let typ: UnityShaderPassType = UnityShaderPassType::deserialize(reader, asset)?;
        let state: UnityShaderSerializedShaderState = UnityShaderSerializedShaderState::deserialize(
            reader,
            asset,
        )?;
        let program_mask: u32 = reader.read_u32()?;
        let prog_vertex: UnityShaderSerializedProgram = UnityShaderSerializedProgram::deserialize(
            reader,
            asset,
        )?;
        let prog_fragment: UnityShaderSerializedProgram = UnityShaderSerializedProgram::deserialize(
            reader,
            asset,
        )?;
        let prog_geometry: UnityShaderSerializedProgram = UnityShaderSerializedProgram::deserialize(
            reader,
            asset,
        )?;
        let prog_hull: UnityShaderSerializedProgram = UnityShaderSerializedProgram::deserialize(
            reader,
            asset,
        )?;
        let prog_domain: UnityShaderSerializedProgram = UnityShaderSerializedProgram::deserialize(
            reader,
            asset,
        )?;
        let prog_ray_tracing: Option<UnityShaderSerializedProgram> =
            read_opt::<UnityShaderSerializedProgram>(version.is_since(2019, 3, 0), reader, asset)?;
        let has_instancing_variant: bool = reader.read_bool()?;
        let has_procedural_instancing_variant: Option<bool> = read_opt::<bool>(
            version.is_since(2018, 0, 0),
            reader,
            asset,
        )?;
        reader.align()?;
        let use_name: String = reader.read_char_array()?;
        let name: String = reader.read_char_array()?;
        let texture_name: String = reader.read_char_array()?;
        let tags: OMap<String, String> = <OMap<String, String>>::deserialize(reader, asset)?;
        let serialized_keyword_state_mask: Option<Vec<u16>> = read_opt_u16s(
            version.is_since(2021, 2, 0),
            true,
            reader,
        )?;
        Ok(
            UnityShaderSerializedPass {
                name_indices,
                typ,
                state,
                program_mask,
                prog_vertex,
                prog_fragment,
                prog_geometry,
                prog_hull,
                prog_domain,
                prog_ray_tracing,
                has_instancing_variant,
                has_procedural_instancing_variant,
                use_name,
                name,
                texture_name,
                tags,
                serialized_keyword_state_mask,
            },
        )
    }
}

/// A sub-shader: its passes, tags and level of detail.
#[derive(Clone, Debug)]
pub struct UnityShaderSerializedSubShader {
    pub passes: Vec<UnityShaderSerializedPass>,
    pub tags: OMap<String, String>,
    pub lod: i32,
}

/// The value of a [`UnityShaderSerializedSubShader`].
pub struct UnityShaderSerializedSubShaderView {
    pub passes: Seq<UnityShaderSerializedPassView>,
    pub tags: Seq<(Seq<char>, Seq<char>)>,
    pub lod: i32,
}

impl DeepView for UnityShaderSerializedSubShader {
    type V = UnityShaderSerializedSubShaderView;

    open spec fn deep_view(&self) -> UnityShaderSerializedSubShaderView {
        UnityShaderSerializedSubShaderView {
            passes: self.passes.deep_view(),
            tags: self.tags.deep_view(),
            lod: self.lod,
        }
    }
}

impl Layout for UnityShaderSerializedSubShader {
    /// The passes as an array, the tags as an ordered map, and an `i32` LOD.
    #[verifier::opaque]
    open spec fn wire(data: Seq<u8>, endian: Endianness, version: UnityVersion, pos: nat) -> Wire<
        UnityShaderSerializedSubShaderView,
    > {
        let s0 = Step::at(pos);
        let (passes, s1) = step(
            s0,
            wire_array::<UnityShaderSerializedPass>(data, endian, version, s0.pos),
        );
        let (tags, s2) = step(s1, <OMap<String, String>>::wire(data, endian, version, s1.pos));
        let (lod, s3) = step(s2, wire_i32(data, endian, s2.pos));
        s3.finish(
            UnityShaderSerializedSubShaderView {
                passes,
                tags,
                lod,
            },
        )
    }
}

impl Deserialize for UnityShaderSerializedSubShader {
    fn deserialize(reader: &mut AssetReader, asset: &AssetInfo) -> (r: Result<
        Self,
        AssetReaderError,
    >) {
        proof {
            reveal(<UnityShaderSerializedSubShader as Layout>::wire);
        }
        let passes: Vec<UnityShaderSerializedPass> = UnityShaderSerializedPass::deserialize_array(
            reader,
            asset,
        )?;
        let tags: OMap<String, String> = <OMap<String, String>>::deserialize(reader, asset)?;
        let lod: i32 = reader.read_i32()?;
        Ok(
            UnityShaderSerializedSubShader {
                passes,
                tags,
                lod,
            },
        )
    }
}

/// A shader object.
#[derive(Clone, Debug)]
pub struct UnityShader {
    pub name: String,
    pub props: Vec<UnityShaderSerializedProperty>,
    pub sub_shaders: Vec<UnityShaderSerializedSubShader>,
}

/// The value of a [`UnityShader`].
pub struct UnityShaderView {
    pub name: Seq<char>,
    pub props: Seq<UnityShaderSerializedPropertyView>,
    pub sub_shaders: Seq<UnityShaderSerializedSubShaderView>,
}

impl DeepView for UnityShader {
    type V = UnityShaderView;

    open spec fn deep_view(&self) -> UnityShaderView {
        UnityShaderView {
            name: self.name.deep_view(),
            props: self.props.deep_view(),
            sub_shaders: self.sub_shaders.deep_view(),
        }
    }
}

impl Layout for UnityShader {
    /// The name, the properties as an array, and the sub-shaders as an array.
    /// What follows the sub-shaders in an object is not read.
    #[verifier::opaque]
    open spec fn wire(data: Seq<u8>, endian: Endianness, version: UnityVersion, pos: nat) -> Wire<
        UnityShaderView,
    > {
        let s0 = Step::at(pos);
        let (name, s1) = step(s0, wire_char_array(data, endian, s0.pos));
        let (props, s2) = step(
            s1,
            wire_array::<UnityShaderSerializedProperty>(data, endian, version, s1.pos),
        );
        let (sub_shaders, s3) = step(
            s2,
            wire_array::<UnityShaderSerializedSubShader>(data, endian, version, s2.pos),
        );
        s3.finish(
            UnityShaderView {
                name,
                props,
                sub_shaders,
            },
        )
    }
}

impl Deserialize for UnityShader {
    fn deserialize(reader: &mut AssetReader, asset: &AssetInfo) -> (r: Result<
        Self,
        AssetReaderError,
    >) {
        proof {
            reveal(<UnityShader as Layout>::wire);
        }
        let name: String = reader.read_char_array()?;
        let props: Vec<UnityShaderSerializedProperty> =
            UnityShaderSerializedProperty::deserialize_array(reader, asset)?;
        let sub_shaders: Vec<UnityShaderSerializedSubShader> =
            UnityShaderSerializedSubShader::deserialize_array(reader, asset)?;
        Ok(
            UnityShader {
                name,
                props,
                sub_shaders,
            },
        )
    }
}

impl UnityShader {
    /// Decodes a shader from the bytes of its object, in the byte order and
    /// for the engine version of the container `asset`.
    pub fn from_bytes(data: Vec<u8>, asset: &AssetInfo) -> (r: Result<UnityShader, AssetReaderError>)
        ensures
            match UnityShader::wire(
                data@,
                asset.header.endianness,
                asset.metadata.unity_version,
                0,
            ) {
                Ok((v, _)) => r is Ok && r->Ok_0.deep_view() == v,
                Err(e) => r is Err && r->Err_0@ == e,
            },
    {
        let mut reader = AssetReader::new(data);
        reader.set_endianness(asset.header.endianness);
        UnityShader::deserialize(&mut reader, asset)
    }
}

} // verus!
