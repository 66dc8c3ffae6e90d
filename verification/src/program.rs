//! GPU programs of a shader pass: sub-programs, their bind channels and
//! their parameter blocks.

use crate::asset::{AssetInfo, Endianness};
use crate::decode::{
    align_if, read_opt, read_opt_array, read_opt_u16s, step, wire_align_if, wire_opt,
    wire_opt_array, wire_opt_u16s, Step,
};
use crate::reader::{
    decoded, malformed, wire_array, AssetReader, AssetReaderError, Deserialize, Layout,
};
use crate::version::UnityVersion;
use crate::wire::{wire_align, wire_i32, wire_i64, wire_u32, wire_u8, Failure, Wire};
use vstd::prelude::*;

verus! {

/// One vertex input binding: which source channel feeds which target.
#[derive(Clone, Copy, Debug, PartialEq, Eq, Structural)]
pub struct UnityShaderBindChannel {
    pub source: u8,
    pub target: u8,
}

impl DeepView for UnityShaderBindChannel {
    type V = UnityShaderBindChannel;

    open spec fn deep_view(&self) -> UnityShaderBindChannel {
        *self
    }
}

impl Layout for UnityShaderBindChannel {
    /// Two bytes: source, target.
    #[verifier::opaque]
    open spec fn wire(data: Seq<u8>, endian: Endianness, version: UnityVersion, pos: nat) -> Wire<
        UnityShaderBindChannel,
    > {
        let s0 = Step::at(pos);
        let (source, s1) = step(s0, wire_u8(data, s0.pos));
        let (target, s2) = step(s1, wire_u8(data, s1.pos));
        s2.finish(
            UnityShaderBindChannel {
                source,
                target,
            },
        )
    }
}

impl Deserialize for UnityShaderBindChannel {
    fn deserialize(reader: &mut AssetReader, asset: &AssetInfo) -> (r: Result<
        Self,
        AssetReaderError,
    >) {
        proof {
            reveal(<UnityShaderBindChannel as Layout>::wire);
        }
        let source: u8 = reader.read_u8()?;
        let target: u8 = reader.read_u8()?;
        Ok(
            UnityShaderBindChannel {
                source,
                target,
            },
        )
    }
}

/// The bind channels of a sub-program.
#[derive(Clone, Debug)]
pub struct UnityShaderParserBindChannels {
    pub channels: Vec<UnityShaderBindChannel>,
    pub source_map: u32,
}

/// The value of a [`UnityShaderParserBindChannels`].
pub struct UnityShaderParserBindChannelsView {
    pub channels: Seq<UnityShaderBindChannel>,
    pub source_map: u32,
}

impl DeepView for UnityShaderParserBindChannels {
    type V = UnityShaderParserBindChannelsView;

    open spec fn deep_view(&self) -> UnityShaderParserBindChannelsView {
        UnityShaderParserBindChannelsView {
            channels: self.channels.deep_view(),
            source_map: self.source_map,
        }
    }
}

impl Layout for UnityShaderParserBindChannels {
    /// An array of bind channels, then a `u32` source map.
    #[verifier::opaque]
    open spec fn wire(data: Seq<u8>, endian: Endianness, version: UnityVersion, pos: nat) -> Wire<
        UnityShaderParserBindChannelsView,
    > {
        let s0 = Step::at(pos);
        let (channels, s1) = step(
            s0,
            wire_array::<UnityShaderBindChannel>(data, endian, version, s0.pos),
        );
        let (source_map, s2) = step(s1, wire_u32(data, endian, s1.pos));
        s2.finish(
            UnityShaderParserBindChannelsView {
                channels,
                source_map,
            },
        )
    }
}

impl Deserialize for UnityShaderParserBindChannels {
    fn deserialize(reader: &mut AssetReader, asset: &AssetInfo) -> (r: Result<
        Self,
        AssetReaderError,
    >) {
        proof {
            reveal(<UnityShaderParserBindChannels as Layout>::wire);
        }
        let channels: Vec<UnityShaderBindChannel> = UnityShaderBindChannel::deserialize_array(
            reader,
            asset,
        )?;
        let source_map: u32 = reader.read_u32()?;
        Ok(
            UnityShaderParserBindChannels {
                channels,
                source_map,
            },
        )
    }
}

/// The kind of a compiled GPU program. On the wire a kind is its position in
/// this list, from 0.
#[derive(Clone, Copy, Debug, PartialEq, Eq, Structural)]
pub enum UnityShaderGpuProgramType {
    Unknown,
    GLLegacy,
    GLES31AEP,
    GLES31,
    GLES3,
    GLES,
    GLCore32,
    GLCore41,
    GLCore43,
    DX9VertexSM20,
    DX9VertexSM30,
    DX9PixelSM20,
    DX9PixelSM30,
    DX10Level9Vertex,
    DX10Level9Pixel,
    DX11VertexSM40,
    DX11VertexSM50,
    DX11PixelSM40,
    DX11PixelSM50,
    DX11GeometrySM40,
    DX11GeometrySM50,
    DX11HullSM50,
    DX11DomainSM50,
    MetalVS,
    MetalFS,
    SPIRV,
    ConsoleVS,
    ConsoleFS,
    ConsoleHS,
    ConsoleDS,
    ConsoleGS,
    RayTracing,
}

impl UnityShaderGpuProgramType {
    /// The number that stands for the kind on the wire.
    pub open spec fn index(self) -> int {
        match self {
            UnityShaderGpuProgramType::Unknown => 0,
            UnityShaderGpuProgramType::GLLegacy => 1,
            UnityShaderGpuProgramType::GLES31AEP => 2,
            UnityShaderGpuProgramType::GLES31 => 3,
            UnityShaderGpuProgramType::GLES3 => 4,
            UnityShaderGpuProgramType::GLES => 5,
            UnityShaderGpuProgramType::GLCore32 => 6,
            UnityShaderGpuProgramType::GLCore41 => 7,
            UnityShaderGpuProgramType::GLCore43 => 8,
            UnityShaderGpuProgramType::DX9VertexSM20 => 9,
            UnityShaderGpuProgramType::DX9VertexSM30 => 10,
            UnityShaderGpuProgramType::DX9PixelSM20 => 11,
            UnityShaderGpuProgramType::DX9PixelSM30 => 12,
            UnityShaderGpuProgramType::DX10Level9Vertex => 13,
            UnityShaderGpuProgramType::DX10Level9Pixel => 14,
            UnityShaderGpuProgramType::DX11VertexSM40 => 15,
            UnityShaderGpuProgramType::DX11VertexSM50 => 16,
            UnityShaderGpuProgramType::DX11PixelSM40 => 17,
            UnityShaderGpuProgramType::DX11PixelSM50 => 18,
            UnityShaderGpuProgramType::DX11GeometrySM40 => 19,
            UnityShaderGpuProgramType::DX11GeometrySM50 => 20,
            UnityShaderGpuProgramType::DX11HullSM50 => 21,
            UnityShaderGpuProgramType::DX11DomainSM50 => 22,
            UnityShaderGpuProgramType::MetalVS => 23,
            UnityShaderGpuProgramType::MetalFS => 24,
            UnityShaderGpuProgramType::SPIRV => 25,
            UnityShaderGpuProgramType::ConsoleVS => 26,
            UnityShaderGpuProgramType::ConsoleFS => 27,
            UnityShaderGpuProgramType::ConsoleHS => 28,
            UnityShaderGpuProgramType::ConsoleDS => 29,
            UnityShaderGpuProgramType::ConsoleGS => 30,
            UnityShaderGpuProgramType::RayTracing => 31,
        }
    }
}

/// The kind that the number `value` stands for: the numbers 0 to 31 each
/// stand for one, no other number does.
pub open spec fn gpu_program_type_of(value: u8) -> Option<UnityShaderGpuProgramType> {
    match value {
        0 => Some(UnityShaderGpuProgramType::Unknown),
        1 => Some(UnityShaderGpuProgramType::GLLegacy),
        2 => Some(UnityShaderGpuProgramType::GLES31AEP),
        3 => Some(UnityShaderGpuProgramType::GLES31),
        4 => Some(UnityShaderGpuProgramType::GLES3),
        5 => Some(UnityShaderGpuProgramType::GLES),
        6 => Some(UnityShaderGpuProgramType::GLCore32),
        7 => Some(UnityShaderGpuProgramType::GLCore41),
        8 => Some(UnityShaderGpuProgramType::GLCore43),
        9 => Some(UnityShaderGpuProgramType::DX9VertexSM20),
        10 => Some(UnityShaderGpuProgramType::DX9VertexSM30),
        11 => Some(UnityShaderGpuProgramType::DX9PixelSM20),
        12 => Some(UnityShaderGpuProgramType::DX9PixelSM30),
        13 => Some(UnityShaderGpuProgramType::DX10Level9Vertex),
        14 => Some(UnityShaderGpuProgramType::DX10Level9Pixel),
        15 => Some(UnityShaderGpuProgramType::DX11VertexSM40),
        16 => Some(UnityShaderGpuProgramType::DX11VertexSM50),
        17 => Some(UnityShaderGpuProgramType::DX11PixelSM40),
        18 => Some(UnityShaderGpuProgramType::DX11PixelSM50),
        19 => Some(UnityShaderGpuProgramType::DX11GeometrySM40),
        20 => Some(UnityShaderGpuProgramType::DX11GeometrySM50),
        21 => Some(UnityShaderGpuProgramType::DX11HullSM50),
        22 => Some(UnityShaderGpuProgramType::DX11DomainSM50),
        23 => Some(UnityShaderGpuProgramType::MetalVS),
        24 => Some(UnityShaderGpuProgramType::MetalFS),
        25 => Some(UnityShaderGpuProgramType::SPIRV),
        26 => Some(UnityShaderGpuProgramType::ConsoleVS),
        27 => Some(UnityShaderGpuProgramType::ConsoleFS),
        28 => Some(UnityShaderGpuProgramType::ConsoleHS),
        29 => Some(UnityShaderGpuProgramType::ConsoleDS),
        30 => Some(UnityShaderGpuProgramType::ConsoleGS),
        31 => Some(UnityShaderGpuProgramType::RayTracing),
        _ => None,
    }
}

/// Message of the failure on a number that stands for no kind of GPU program.
pub open spec fn unrecognized_gpu_program_type() -> Seq<char> {
    "unrecognized GPU program type"@
}

/// The numbers 0 to 31 are mapped, each to the kind with that index, and no
/// other number is; every kind is the image of its index.
pub proof fn gpu_program_type_domain(value: u8, kind: UnityShaderGpuProgramType)
    ensures
        gpu_program_type_of(value) is Some <==> value <= 31,
        gpu_program_type_of(value) matches Some(t) ==> t.index() == value,
        0 <= kind.index() <= 31,
        gpu_program_type_of(kind.index() as u8) == Some(kind),
{
}

impl DeepView for UnityShaderGpuProgramType {
    type V = UnityShaderGpuProgramType;

    open spec fn deep_view(&self) -> UnityShaderGpuProgramType {
        *self
    }
}

impl Layout for UnityShaderGpuProgramType {
    /// One byte that must stand for a kind.
    open spec fn wire(data: Seq<u8>, endian: Endianness, version: UnityVersion, pos: nat) -> Wire<
        UnityShaderGpuProgramType,
    > {
        match wire_u8(data, pos) {
            Err(e) => Err(e),
            Ok((raw, p)) => match gpu_program_type_of(raw) {
                Some(t) => Ok((t, p)),
                None => Err(Failure::DeserializationError(unrecognized_gpu_program_type())),
            },
        }
    }
}

impl Deserialize for UnityShaderGpuProgramType {
    fn deserialize(reader: &mut AssetReader, asset: &AssetInfo) -> (r: Result<
        Self,
        AssetReaderError,
    >) {
        let raw: u8 = reader.read_u8()?;
        UnityShaderSerializedSubProgram::get_gpu_program_type(raw)
    }
}

/// A vector parameter of a GPU program.
#[derive(Clone, Copy, Debug, PartialEq, Eq, Structural)]
pub struct UnityShaderVectorParameter {
    pub name_index: i32,
    pub index: i32,
    pub array_size: i32,
    pub typ: u8,
    pub dim: u8,
}

impl DeepView for UnityShaderVectorParameter {
    type V = UnityShaderVectorParameter;

    open spec fn deep_view(&self) -> UnityShaderVectorParameter {
        *self
    }
}

impl Layout for UnityShaderVectorParameter {
    /// Three `i32` (name index, index, array size), two bytes (type,
    /// dimension), then alignment to 4.
    #[verifier::opaque]
    open spec fn wire(data: Seq<u8>, endian: Endianness, version: UnityVersion, pos: nat) -> Wire<
        UnityShaderVectorParameter,
    > {
        let s0 = Step::at(pos);
        let (name_index, s1) = step(s0, wire_i32(data, endian, s0.pos));
        let (index, s2) = step(s1, wire_i32(data, endian, s1.pos));
        let (array_size, s3) = step(s2, wire_i32(data, endian, s2.pos));
        let (typ, s4) = step(s3, wire_u8(data, s3.pos));
        let (dim, s5) = step(s4, wire_u8(data, s4.pos));
        let (_, s6) = step(s5, wire_align(s5.pos));
        s6.finish(
            UnityShaderVectorParameter {
                name_index,
                index,
                array_size,
                typ,
                dim,
            },
        )
    }
}

impl Deserialize for UnityShaderVectorParameter {
    fn deserialize(reader: &mut AssetReader, asset: &AssetInfo) -> (r: Result<
        Self,
        AssetReaderError,
    >) {
        proof {
            reveal(<UnityShaderVectorParameter as Layout>::wire);
        }
        let name_index: i32 = reader.read_i32()?;
        let index: i32 = reader.read_i32()?;
        let array_size: i32 = reader.read_i32()?;
        let typ: u8 = reader.read_u8()?;
        let dim: u8 = reader.read_u8()?;
        reader.align()?;
        Ok(
            UnityShaderVectorParameter {
                name_index,
                index,
                array_size,
                typ,
                dim,
            },
        )
    }
}

/// A matrix parameter of a GPU program.
#[derive(Clone, Copy, Debug, PartialEq, Eq, Structural)]
pub struct UnityShaderMatrixParameter {
    pub name_index: i32,
    pub index: i32,
    pub array_size: i32,
    pub typ: u8,
    pub row_count: u8,
}

impl DeepView for UnityShaderMatrixParameter {
    type V = UnityShaderMatrixParameter;

    open spec fn deep_view(&self) -> UnityShaderMatrixParameter {
        *self
    }
}

impl Layout for UnityShaderMatrixParameter {
    /// Three `i32` (name index, index, array size), two bytes (type, row
    /// count), then alignment to 4.
    #[verifier::opaque]
    open spec fn wire(data: Seq<u8>, endian: Endianness, version: UnityVersion, pos: nat) -> Wire<
        UnityShaderMatrixParameter,
    > {
        let s0 = Step::at(pos);
        let (name_index, s1) = step(s0, wire_i32(data, endian, s0.pos));
        let (index, s2) = step(s1, wire_i32(data, endian, s1.pos));
        let (array_size, s3) = step(s2, wire_i32(data, endian, s2.pos));
        let (typ, s4) = step(s3, wire_u8(data, s3.pos));
        let (row_count, s5) = step(s4, wire_u8(data, s4.pos));
        let (_, s6) = step(s5, wire_align(s5.pos));
        s6.finish(
            UnityShaderMatrixParameter {
                name_index,
                index,
                array_size,
                typ,
                row_count,
            },
        )
    }
}

impl Deserialize for UnityShaderMatrixParameter {
    fn deserialize(reader: &mut AssetReader, asset: &AssetInfo) -> (r: Result<
        Self,
        AssetReaderError,
    >) {
        proof {
            reveal(<UnityShaderMatrixParameter as Layout>::wire);
        }
        let name_index: i32 = reader.read_i32()?;
        let index: i32 = reader.read_i32()?;
        let array_size: i32 = reader.read_i32()?;
        let typ: u8 = reader.read_u8()?;
        let row_count: u8 = reader.read_u8()?;
        reader.align()?;
        Ok(
            UnityShaderMatrixParameter {
                name_index,
                index,
                array_size,
                typ,
                row_count,
            },
        )
    }
}

/// A texture parameter of a GPU program.
#[derive(Clone, Copy, Debug, PartialEq, Eq, Structural)]
pub struct UnityShaderTextureParameter {
    pub name_index: i32,
    pub index: i32,
    pub sampler_index: i32,
    /// Present from engine 2017.3.
    pub multi_sampled: Option<bool>,
    pub dim: u8,
}

impl DeepView for UnityShaderTextureParameter {
    type V = UnityShaderTextureParameter;

    open spec fn deep_view(&self) -> UnityShaderTextureParameter {
        *self
    }
}

impl Layout for UnityShaderTextureParameter {
    /// Three `i32` (name index, index, sampler index), from 2017.3 the multi-
    /// sampled flag, the dimension byte, then alignment to 4.
    #[verifier::opaque]
    open spec fn wire(data: Seq<u8>, endian: Endianness, version: UnityVersion, pos: nat) -> Wire<
        UnityShaderTextureParameter,
    > {
        let s0 = Step::at(pos);
        let (name_index, s1) = step(s0, wire_i32(data, endian, s0.pos));
        let (index, s2) = step(s1, wire_i32(data, endian, s1.pos));
        let (sampler_index, s3) = step(s2, wire_i32(data, endian, s2.pos));
        let (multi_sampled, s4) = step(
            s3,
            wire_opt::<bool>(version.since(2017, 3, 0), data, endian, version, s3.pos),
        );
        let (dim, s5) = step(s4, wire_u8(data, s4.pos));
        let (_, s6) = step(s5, wire_align(s5.pos));
        s6.finish(
            UnityShaderTextureParameter {
                name_index,
                index,
                sampler_index,
                multi_sampled,
                dim,
            },
        )
    }
}

impl Deserialize for UnityShaderTextureParameter {
    fn deserialize(reader: &mut AssetReader, asset: &AssetInfo) -> (r: Result<
        Self,
        AssetReaderError,
    >) {
        proof {
            reveal(<UnityShaderTextureParameter as Layout>::wire);
        }
        let version: UnityVersion = asset.metadata.unity_version;
        let name_index: i32 = reader.read_i32()?;
        let index: i32 = reader.read_i32()?;
        let sampler_index: i32 = reader.read_i32()?;
        let multi_sampled: Option<bool> = read_opt::<bool>(
            version.is_since(2017, 3, 0),
            reader,
            asset,
        )?;
        let dim: u8 = reader.read_u8()?;
        reader.align()?;
        Ok(
            UnityShaderTextureParameter {
                name_index,
                index,
                sampler_index,
                multi_sampled,
                dim,
            },
        )
    }
}

/// A buffer bound to a GPU program.
#[derive(Clone, Copy, Debug, PartialEq, Eq, Structural)]
pub struct UnityShaderBufferBinding {
    pub name_index: i32,
    pub index: i32,
    /// Present from engine 2020.
    pub array_size: Option<i32>,
}

impl DeepView for UnityShaderBufferBinding {
    type V = UnityShaderBufferBinding;

    open spec fn deep_view(&self) -> UnityShaderBufferBinding {
        *self
    }
}

impl Layout for UnityShaderBufferBinding {
    /// Two `i32` (name index, index), and from 2020 the array size.
    #[verifier::opaque]
    open spec fn wire(data: Seq<u8>, endian: Endianness, version: UnityVersion, pos: nat) -> Wire<
        UnityShaderBufferBinding,
    > {
        let s0 = Step::at(pos);
        let (name_index, s1) = step(s0, wire_i32(data, endian, s0.pos));
        let (index, s2) = step(s1, wire_i32(data, endian, s1.pos));
        let (array_size, s3) = step(
            s2,
            wire_opt::<i32>(version.since(2020, 0, 0), data, endian, version, s2.pos),
        );
        s3.finish(
            UnityShaderBufferBinding {
                name_index,
                index,
                array_size,
            },
        )
    }
}

impl Deserialize for UnityShaderBufferBinding {
    fn deserialize(reader: &mut AssetReader, asset: &AssetInfo) -> (r: Result<
        Self,
        AssetReaderError,
    >) {
        proof {
            reveal(<UnityShaderBufferBinding as Layout>::wire);
        }
        let version: UnityVersion = asset.metadata.unity_version;
        let name_index: i32 = reader.read_i32()?;
        let index: i32 = reader.read_i32()?;
        let array_size: Option<i32> = read_opt::<i32>(version.is_since(2020, 0, 0), reader, asset)?;
        Ok(
            UnityShaderBufferBinding {
                name_index,
                index,
                array_size,
            },
        )
    }
}

/// A struct parameter of a constant buffer.
#[derive(Clone, Debug)]
pub struct UnityShaderStructParameter {
    pub name_index: i32,
    pub index: i32,
    pub array_size: i32,
    pub struct_size: i32,
    pub vector_params: Vec<UnityShaderVectorParameter>,
    pub matrix_params: Vec<UnityShaderMatrixParameter>,
}

/// The value of a [`UnityShaderStructParameter`].
pub struct UnityShaderStructParameterView {
    pub name_index: i32,
    pub index: i32,
    pub array_size: i32,
    pub struct_size: i32,
    pub vector_params: Seq<UnityShaderVectorParameter>,
    pub matrix_params: Seq<UnityShaderMatrixParameter>,
}

impl DeepView for UnityShaderStructParameter {
    type V = UnityShaderStructParameterView;

    open spec fn deep_view(&self) -> UnityShaderStructParameterView {
        UnityShaderStructParameterView {
            name_index: self.name_index,
            index: self.index,
            array_size: self.array_size,
            struct_size: self.struct_size,
            vector_params: self.vector_params.deep_view(),
            matrix_params: self.matrix_params.deep_view(),
        }
    }
}

impl Layout for UnityShaderStructParameter {
    /// Four `i32` (name index, index, array size, struct size), then the vector
    /// and the matrix parameters as arrays.
    #[verifier::opaque]
    open spec fn wire(data: Seq<u8>, endian: Endianness, version: UnityVersion, pos: nat) -> Wire<
        UnityShaderStructParameterView,
    > {
        let s0 = Step::at(pos);
        let (name_index, s1) = step(s0, wire_i32(data, endian, s0.pos));
        let (index, s2) = step(s1, wire_i32(data, endian, s1.pos));
        let (array_size, s3) = step(s2, wire_i32(data, endian, s2.pos));
        let (struct_size, s4) = step(s3, wire_i32(data, endian, s3.pos));
        let (vector_params, s5) = step(
            s4,
            wire_array::<UnityShaderVectorParameter>(data, endian, version, s4.pos),
        );
        let (matrix_params, s6) = step(
            s5,
            wire_array::<UnityShaderMatrixParameter>(data, endian, version, s5.pos),
        );
        s6.finish(
            UnityShaderStructParameterView {
                name_index,
                index,
                array_size,
                struct_size,
                vector_params,
                matrix_params,
            },
        )
    }
}

impl Deserialize for UnityShaderStructParameter {
    fn deserialize(reader: &mut AssetReader, asset: &AssetInfo) -> (r: Result<
        Self,
        AssetReaderError,
    >) {
        proof {
            reveal(<UnityShaderStructParameter as Layout>::wire);
        }
        let name_index: i32 = reader.read_i32()?;
        let index: i32 = reader.read_i32()?;
        let array_size: i32 = reader.read_i32()?;
        let struct_size: i32 = reader.read_i32()?;
        let vector_params: Vec<UnityShaderVectorParameter> =
            UnityShaderVectorParameter::deserialize_array(reader, asset)?;
        let matrix_params: Vec<UnityShaderMatrixParameter> =
            UnityShaderMatrixParameter::deserialize_array(reader, asset)?;
        Ok(
            UnityShaderStructParameter {
                name_index,
                index,
                array_size,
                struct_size,
                vector_params,
                matrix_params,
            },
        )
    }
}

/// A constant buffer of a GPU program.
#[derive(Clone, Debug)]
pub struct UnityShaderConstantBuffer {
    pub name_index: i32,
    pub matrix_params: Vec<UnityShaderMatrixParameter>,
    pub vector_params: Vec<UnityShaderVectorParameter>,
    /// Present from engine 2017.3.
    pub struct_params: Option<Vec<UnityShaderStructParameter>>,
    pub size: i32,
    /// Present where the engine knows partial constant buffers.
    pub is_partial_cb: Option<bool>,
}

/// The value of a [`UnityShaderConstantBuffer`].
pub struct UnityShaderConstantBufferView {
    pub name_index: i32,
    pub matrix_params: Seq<UnityShaderMatrixParameter>,
    pub vector_params: Seq<UnityShaderVectorParameter>,
    pub struct_params: Option<Seq<UnityShaderStructParameterView>>,
    pub size: i32,
    pub is_partial_cb: Option<bool>,
}

impl DeepView for UnityShaderConstantBuffer {
    type V = UnityShaderConstantBufferView;

    open spec fn deep_view(&self) -> UnityShaderConstantBufferView {
        UnityShaderConstantBufferView {
            name_index: self.name_index,
            matrix_params: self.matrix_params.deep_view(),
            vector_params: self.vector_params.deep_view(),
            struct_params: self.struct_params.deep_view(),
            size: self.size,
            is_partial_cb: self.is_partial_cb,
        }
    }
}

impl Layout for UnityShaderConstantBuffer {
    /// The name index, the matrix and the vector parameters, from 2017.3 the
    /// struct parameters, the size, and where the engine knows partial constant
    /// buffers the flag followed by alignment to 4.
    #[verifier::opaque]
    open spec fn wire(data: Seq<u8>, endian: Endianness, version: UnityVersion, pos: nat) -> Wire<
        UnityShaderConstantBufferView,
    > {
        let s0 = Step::at(pos);
        let (name_index, s1) = step(s0, wire_i32(data, endian, s0.pos));
        let (matrix_params, s2) = step(
            s1,
            wire_array::<UnityShaderMatrixParameter>(data, endian, version, s1.pos),
        );
        let (vector_params, s3) = step(
            s2,
            wire_array::<UnityShaderVectorParameter>(data, endian, version, s2.pos),
        );
        let (struct_params, s4) = step(
            s3,
            wire_opt_array::<UnityShaderStructParameter>(
                version.since(2017, 3, 0),
                data,
                endian,
                version,
                s3.pos,
            ),
        );
        let (size, s5) = step(s4, wire_i32(data, endian, s4.pos));
        let (is_partial_cb, s6) = step(
            s5,
            wire_opt::<bool>(has_common_parameters(version), data, endian, version, s5.pos),
        );
        let (_, s7) = step(s6, wire_align_if(has_common_parameters(version), s6.pos));
        s7.finish(
            UnityShaderConstantBufferView {
                name_index,
                matrix_params,
                vector_params,
                struct_params,
                size,
                is_partial_cb,
            },
        )
    }
}

impl Deserialize for UnityShaderConstantBuffer {
    fn deserialize(reader: &mut AssetReader, asset: &AssetInfo) -> (r: Result<
        Self,
        AssetReaderError,
    >) {
        proof {
            reveal(<UnityShaderConstantBuffer as Layout>::wire);
        }
        let version: UnityVersion = asset.metadata.unity_version;
        let name_index: i32 = reader.read_i32()?;
        let matrix_params: Vec<UnityShaderMatrixParameter> =
            UnityShaderMatrixParameter::deserialize_array(reader, asset)?;
        let vector_params: Vec<UnityShaderVectorParameter> =
            UnityShaderVectorParameter::deserialize_array(reader, asset)?;
        let struct_params: Option<Vec<UnityShaderStructParameter>> =
            read_opt_array::<UnityShaderStructParameter>(
                version.is_since(2017, 3, 0),
                reader,
                asset,
            )?;
        let size: i32 = reader.read_i32()?;
        let is_partial_cb: Option<bool> = read_opt::<bool>(
            knows_common_parameters(&version),
            reader,
            asset,
        )?;
        align_if(knows_common_parameters(&version), reader)?;
        Ok(
            UnityShaderConstantBuffer {
                name_index,
                matrix_params,
                vector_params,
                struct_params,
                size,
                is_partial_cb,
            },
        )
    }
}

/// An unordered-access view bound to a GPU program.
#[derive(Clone, Copy, Debug, PartialEq, Eq, Structural)]
pub struct UnityShaderUAVParameter {
    pub name_index: i32,
    pub index: i32,
    pub original_index: i32,
}

impl DeepView for UnityShaderUAVParameter {
    type V = UnityShaderUAVParameter;

    open spec fn deep_view(&self) -> UnityShaderUAVParameter {
        *self
    }
}

impl Layout for UnityShaderUAVParameter {
    /// Three `i32`: name index, index, original index.
    #[verifier::opaque]
    open spec fn wire(data: Seq<u8>, endian: Endianness, version: UnityVersion, pos: nat) -> Wire<
        UnityShaderUAVParameter,
    > {
        let s0 = Step::at(pos);
        let (name_index, s1) = step(s0, wire_i32(data, endian, s0.pos));
        let (index, s2) = step(s1, wire_i32(data, endian, s1.pos));
        let (original_index, s3) = step(s2, wire_i32(data, endian, s2.pos));
        s3.finish(
            UnityShaderUAVParameter {
                name_index,
                index,
                original_index,
            },
        )
    }
}

impl Deserialize for UnityShaderUAVParameter {
    fn deserialize(reader: &mut AssetReader, asset: &AssetInfo) -> (r: Result<
        Self,
        AssetReaderError,
    >) {
        proof {
            reveal(<UnityShaderUAVParameter as Layout>::wire);
        }
        let name_index: i32 = reader.read_i32()?;
        let index: i32 = reader.read_i32()?;
        let original_index: i32 = reader.read_i32()?;
        Ok(
            UnityShaderUAVParameter {
                name_index,
                index,
                original_index,
            },
        )
    }
}

/// A sampler bound to a GPU program.
#[derive(Clone, Copy, Debug, PartialEq, Eq, Structural)]
pub struct UnityShaderSamplerParameter {
    pub sampler: u32,
    pub bind_point: i32,
}

impl DeepView for UnityShaderSamplerParameter {
    type V = UnityShaderSamplerParameter;

    open spec fn deep_view(&self) -> UnityShaderSamplerParameter {
        *self
    }
}

impl Layout for UnityShaderSamplerParameter {
    /// A `u32` sampler and an `i32` bind point.
    #[verifier::opaque]
    open spec fn wire(data: Seq<u8>, endian: Endianness, version: UnityVersion, pos: nat) -> Wire<
        UnityShaderSamplerParameter,
    > {
        let s0 = Step::at(pos);
        let (sampler, s1) = step(s0, wire_u32(data, endian, s0.pos));
        let (bind_point, s2) = step(s1, wire_i32(data, endian, s1.pos));
        s2.finish(
            UnityShaderSamplerParameter {
                sampler,
                bind_point,
            },
        )
    }
}

impl Deserialize for UnityShaderSamplerParameter {
    fn deserialize(reader: &mut AssetReader, asset: &AssetInfo) -> (r: Result<
        Self,
        AssetReaderError,
    >) {
        proof {
            reveal(<UnityShaderSamplerParameter as Layout>::wire);
        }
        let sampler: u32 = reader.read_u32()?;
        let bind_point: i32 = reader.read_i32()?;
        Ok(
            UnityShaderSamplerParameter {
                sampler,
                bind_point,
            },
        )
    }
}

/// The parameter block of a GPU program.
#[derive(Clone, Debug)]
pub struct UnityShaderSerializedProgramParameters {
    pub vector_params: Vec<UnityShaderVectorParameter>,
    pub matrix_params: Vec<UnityShaderMatrixParameter>,
    pub texture_params: Vec<UnityShaderTextureParameter>,
    pub buffer_params: Vec<UnityShaderBufferBinding>,
    pub constant_buffers: Vec<UnityShaderConstantBuffer>,
    pub constant_buffer_bindings: Vec<UnityShaderBufferBinding>,
    pub uav_params: Vec<UnityShaderUAVParameter>,
    /// Present from engine 2017.
    pub samplers: Option<Vec<UnityShaderSamplerParameter>>,
}

/// The value of a [`UnityShaderSerializedProgramParameters`].
pub struct UnityShaderSerializedProgramParametersView {
    pub vector_params: Seq<UnityShaderVectorParameter>,
    pub matrix_params: Seq<UnityShaderMatrixParameter>,
    pub texture_params: Seq<UnityShaderTextureParameter>,
    pub buffer_params: Seq<UnityShaderBufferBinding>,
    pub constant_buffers: Seq<UnityShaderConstantBufferView>,
    pub constant_buffer_bindings: Seq<UnityShaderBufferBinding>,
    pub uav_params: Seq<UnityShaderUAVParameter>,
    pub samplers: Option<Seq<UnityShaderSamplerParameter>>,
}

impl DeepView for UnityShaderSerializedProgramParameters {
    type V = UnityShaderSerializedProgramParametersView;

    open spec fn deep_view(&self) -> UnityShaderSerializedProgramParametersView {
        UnityShaderSerializedProgramParametersView {
            vector_params: self.vector_params.deep_view(),
            matrix_params: self.matrix_params.deep_view(),
            texture_params: self.texture_params.deep_view(),
            buffer_params: self.buffer_params.deep_view(),
            constant_buffers: self.constant_buffers.deep_view(),
            constant_buffer_bindings: self.constant_buffer_bindings.deep_view(),
            uav_params: self.uav_params.deep_view(),
            samplers: self.samplers.deep_view(),
        }
    }
}

impl Layout for UnityShaderSerializedProgramParameters {
    /// Seven arrays in this order: vector, matrix and texture parameters,
    /// buffer bindings, constant buffers, constant-buffer bindings, UAV
    /// parameters; from 2017 the samplers as an eighth.
    #[verifier::opaque]
    open spec fn wire(data: Seq<u8>, endian: Endianness, version: UnityVersion, pos: nat) -> Wire<
        UnityShaderSerializedProgramParametersView,
    > {
        let s0 = Step::at(pos);
        let (vector_params, s1) = step(
            s0,
            wire_array::<UnityShaderVectorParameter>(data, endian, version, s0.pos),
        );
        let (matrix_params, s2) = step(
            s1,
            wire_array::<UnityShaderMatrixParameter>(data, endian, version, s1.pos),
        );
        let (texture_params, s3) = step(
            s2,
            wire_array::<UnityShaderTextureParameter>(data, endian, version, s2.pos),
        );
        let (buffer_params, s4) = step(
            s3,
            wire_array::<UnityShaderBufferBinding>(data, endian, version, s3.pos),
        );
        let (constant_buffers, s5) = step(
            s4,
            wire_array::<UnityShaderConstantBuffer>(data, endian, version, s4.pos),
        );
        let (constant_buffer_bindings, s6) = step(
            s5,
            wire_array::<UnityShaderBufferBinding>(data, endian, version, s5.pos),
        );
        let (uav_params, s7) = step(
            s6,
            wire_array::<UnityShaderUAVParameter>(data, endian, version, s6.pos),
        );
        let (samplers, s8) = step(
            s7,
            wire_opt_array::<UnityShaderSamplerParameter>(
                version.since(2017, 0, 0),
                data,
                endian,
                version,
                s7.pos,
            ),
        );
        s8.finish(
            UnityShaderSerializedProgramParametersView {
                vector_params,
                matrix_params,
                texture_params,
                buffer_params,
                constant_buffers,
                constant_buffer_bindings,
                uav_params,
                samplers,
            },
        )
    }
}

impl Deserialize for UnityShaderSerializedProgramParameters {
    fn deserialize(reader: &mut AssetReader, asset: &AssetInfo) -> (r: Result<
        Self,
        AssetReaderError,
    >) {
        proof {
            reveal(<UnityShaderSerializedProgramParameters as Layout>::wire);
        }
        let version: UnityVersion = asset.metadata.unity_version;
        let vector_params: Vec<UnityShaderVectorParameter> =
            UnityShaderVectorParameter::deserialize_array(reader, asset)?;
        let matrix_params: Vec<UnityShaderMatrixParameter> =
            UnityShaderMatrixParameter::deserialize_array(reader, asset)?;
        let texture_params: Vec<UnityShaderTextureParameter> =
            UnityShaderTextureParameter::deserialize_array(reader, asset)?;
        let buffer_params: Vec<UnityShaderBufferBinding> =
            UnityShaderBufferBinding::deserialize_array(reader, asset)?;
        let constant_buffers: Vec<UnityShaderConstantBuffer> =
            UnityShaderConstantBuffer::deserialize_array(reader, asset)?;
        let constant_buffer_bindings: Vec<UnityShaderBufferBinding> =
            UnityShaderBufferBinding::deserialize_array(reader, asset)?;
        let uav_params: Vec<UnityShaderUAVParameter> = UnityShaderUAVParameter::deserialize_array(
            reader,
            asset,
        )?;
        let samplers: Option<Vec<UnityShaderSamplerParameter>> =
            read_opt_array::<UnityShaderSamplerParameter>(
                version.is_since(2017, 0, 0),
                reader,
                asset,
            )?;
        Ok(
            UnityShaderSerializedProgramParameters {
                vector_params,
                matrix_params,
                texture_params,
                buffer_params,
                constant_buffers,
                constant_buffer_bindings,
                uav_params,
                samplers,
            },
        )
    }
}

/// Whether sub-programs of this engine version list their keywords as two
/// arrays, global and local: from 2019 up to, but not including, 2021.2.
pub open spec fn keywords_split(version: UnityVersion) -> bool {
    version.since(2019, 0, 0) && !version.since(2021, 2, 0)
}

/// Whether this engine version knows partial constant buffers and common
/// parameters: from 2021.1.4 on, and in the 2020 line from 2020.3.2 on.
pub open spec fn has_common_parameters(version: UnityVersion) -> bool {
    version.since(2021, 1, 4) || (version.major == 2020 && version.since(2020, 3, 2))
}

/// Whether sub-programs of this engine version list their keywords as two
/// arrays.
pub fn splits_keywords(version: &UnityVersion) -> (r: bool)
    ensures
        r == keywords_split(*version),
{
    version.is_since(2019, 0, 0) && !version.is_since(2021, 2, 0)
}

/// Whether this engine version knows partial constant buffers and common
/// parameters.
pub fn knows_common_parameters(version: &UnityVersion) -> (r: bool)
    ensures
        r == has_common_parameters(*version),
{
    version.is_since(2021, 1, 4) || (version.major == 2020 && version.is_since(2020, 3, 2))
}

/// The shader requirements of a sub-program: absent before 2017.2, an `i32`
/// widened to 64 bits before 2021, an `i64` from then on.
pub open spec fn wire_requirements(
    data: Seq<u8>,
    endian: Endianness,
    version: UnityVersion,
    pos: nat,
) -> Wire<Option<i64>> {
    if !version.since(2017, 2, 0) {
        Ok((None, pos))
    } else if version.since(2021, 0, 0) {
        match wire_i64(data, endian, pos) {
            Err(e) => Err(e),
            Ok((v, p)) => Ok((Some(v), p)),
        }
    } else {
        match wire_i32(data, endian, pos) {
            Err(e) => Err(e),
            Ok((v, p)) => Ok((Some(v as i64), p)),
        }
    }
}

/// Decodes the shader requirements of a sub-program.
pub fn read_requirements(reader: &mut AssetReader, asset: &AssetInfo) -> (r: Result<
    Option<i64>,
    AssetReaderError,
>)
    ensures
        decoded(
            *old(reader),
            *final(reader),
            r,
            wire_requirements(
                old(reader).bytes(),
                old(reader).endian(),
                asset.metadata.unity_version,
                old(reader).pos(),
            ),
        ),
{
    let version: UnityVersion = asset.metadata.unity_version;
    if !version.is_since(2017, 2, 0) {
        Ok(None)
    } else if version.is_since(2021, 0, 0) {
        let v: i64 = reader.read_i64()?;
        Ok(Some(v))
    } else {
        let v: i32 = reader.read_i32()?;
        Ok(Some(v as i64))
    }
}

/// One compiled variant of a GPU program.
#[derive(Clone, Debug)]
pub struct UnityShaderSerializedSubProgram {
    pub blob_index: u32,
    pub channels: UnityShaderParserBindChannels,
    /// Present where the keywords are split into global and local ones.
    pub global_keyword_indices: Option<Vec<u16>>,
    /// Present where the keywords are split into global and local ones.
    pub local_keyword_indices: Option<Vec<u16>>,
    /// Present where the keywords are not split.
    pub keyword_indices: Option<Vec<u16>>,
    pub shader_hardware_tier: u8,
    pub gpu_program_type: UnityShaderGpuProgramType,
    /// Always present after decoding.
    pub parameters: Option<UnityShaderSerializedProgramParameters>,
    /// Present from engine 2017.2.
    pub shader_requirements: Option<i64>,
}

/// The value of a [`UnityShaderSerializedSubProgram`].
pub struct UnityShaderSerializedSubProgramView {
    pub blob_index: u32,
    pub channels: UnityShaderParserBindChannelsView,
    pub global_keyword_indices: Option<Seq<u16>>,
    pub local_keyword_indices: Option<Seq<u16>>,
    pub keyword_indices: Option<Seq<u16>>,
    pub shader_hardware_tier: u8,
    pub gpu_program_type: UnityShaderGpuProgramType,
    pub parameters: Option<UnityShaderSerializedProgramParametersView>,
    pub shader_requirements: Option<i64>,
}

impl DeepView for UnityShaderSerializedSubProgram {
    type V = UnityShaderSerializedSubProgramView;

    open spec fn deep_view(&self) -> UnityShaderSerializedSubProgramView {
        UnityShaderSerializedSubProgramView {
            blob_index: self.blob_index,
            channels: self.channels.deep_view(),
            global_keyword_indices: self.global_keyword_indices.deep_view(),
            local_keyword_indices: self.local_keyword_indices.deep_view(),
            keyword_indices: self.keyword_indices.deep_view(),
            shader_hardware_tier: self.shader_hardware_tier,
            gpu_program_type: self.gpu_program_type,
            parameters: self.parameters.deep_view(),
            shader_requirements: self.shader_requirements,
        }
    }
}

impl Layout for UnityShaderSerializedSubProgram {
    /// The blob index, the bind channels, the keyword indices, the hardware
    /// tier, the kind of program, alignment to 4, the parameter block, and the
    /// shader requirements. Where the keywords are split, the global and the
    /// local indices are two arrays of `u16`, each followed by alignment to 4;
    /// otherwise there is one array, followed by alignment from 2017 on.
    #[verifier::opaque]
    open spec fn wire(data: Seq<u8>, endian: Endianness, version: UnityVersion, pos: nat) -> Wire<
        UnityShaderSerializedSubProgramView,
    > {
        let s0 = Step::at(pos);
        let (blob_index, s1) = step(s0, wire_u32(data, endian, s0.pos));
        let (channels, s2) = step(
            s1,
            UnityShaderParserBindChannels::wire(data, endian, version, s1.pos),
        );
        let (global_keyword_indices, s3) = step(
            s2,
            wire_opt_u16s(keywords_split(version), data, endian, true, s2.pos),
        );
        let (local_keyword_indices, s4) = step(
            s3,
            wire_opt_u16s(keywords_split(version), data, endian, true, s3.pos),
        );
        let (keyword_indices, s5) = step(
            s4,
            wire_opt_u16s(
                !keywords_split(version),
                data,
                endian,
                version.since(2017, 0, 0),
                s4.pos,
            ),
        );
        let (shader_hardware_tier, s6) = step(s5, wire_u8(data, s5.pos));
        let (gpu_program_type, s7) = step(
            s6,
            UnityShaderGpuProgramType::wire(data, endian, version, s6.pos),
        );
        let (_, s8) = step(s7, wire_align(s7.pos));
        let (parameters, s9) = step(
            s8,
            UnityShaderSerializedProgramParameters::wire(data, endian, version, s8.pos),
        );
        let (shader_requirements, s10) = step(s9, wire_requirements(data, endian, version, s9.pos));
        s10.finish(
            UnityShaderSerializedSubProgramView {
                blob_index,
                channels,
                global_keyword_indices,
                local_keyword_indices,
                keyword_indices,
                shader_hardware_tier,
                gpu_program_type,
                parameters: Some(parameters),
                shader_requirements,
            },
        )
    }
}

impl Deserialize for UnityShaderSerializedSubProgram {
    fn deserialize(reader: &mut AssetReader, asset: &AssetInfo) -> (r: Result<
        Self,
        AssetReaderError,
    >) {
        proof {
            reveal(<UnityShaderSerializedSubProgram as Layout>::wire);
        }
        let version: UnityVersion = asset.metadata.unity_version;
        let blob_index: u32 = reader.read_u32()?;
        let channels: UnityShaderParserBindChannels = UnityShaderParserBindChannels::deserialize(
            reader,
            asset,
        )?;
        let global_keyword_indices: Option<Vec<u16>> = read_opt_u16s(
            splits_keywords(&version),
            true,
            reader,
        )?;
        let local_keyword_indices: Option<Vec<u16>> = read_opt_u16s(
            splits_keywords(&version),
            true,
            reader,
        )?;
        let keyword_indices: Option<Vec<u16>> = read_opt_u16s(
            !splits_keywords(&version),
            version.is_since(2017, 0, 0),
            reader,
        )?;
        let shader_hardware_tier: u8 = reader.read_u8()?;
        let gpu_program_type: UnityShaderGpuProgramType = UnityShaderGpuProgramType::deserialize(
            reader,
            asset,
        )?;
        reader.align()?;
        let parameters: UnityShaderSerializedProgramParameters =
            UnityShaderSerializedProgramParameters::deserialize(reader, asset)?;
        let shader_requirements: Option<i64> = read_requirements(reader, asset)?;
        Ok(
            UnityShaderSerializedSubProgram {
                blob_index,
                channels,
                global_keyword_indices,
                local_keyword_indices,
                keyword_indices,
                shader_hardware_tier,
                gpu_program_type,
                parameters: Some(parameters),
                shader_requirements,
            },
        )
    }
}

impl UnityShaderSerializedSubProgram {
    /// The kind of GPU program that `value` stands for; a failure for a
    /// number above 31.
    pub fn get_gpu_program_type(value: u8) -> (r: Result<
        UnityShaderGpuProgramType,
        AssetReaderError,
    >)
        ensures
            match gpu_program_type_of(value) {
                Some(t) => r is Ok && r->Ok_0 == t,
                None => r is Err && r->Err_0@ == Failure::DeserializationError(
                    unrecognized_gpu_program_type(),
                ),
            },
    {
        match value {
            0 => Ok(UnityShaderGpuProgramType::Unknown),
            1 => Ok(UnityShaderGpuProgramType::GLLegacy),
            2 => Ok(UnityShaderGpuProgramType::GLES31AEP),
            3 => Ok(UnityShaderGpuProgramType::GLES31),
            4 => Ok(UnityShaderGpuProgramType::GLES3),
            5 => Ok(UnityShaderGpuProgramType::GLES),
            6 => Ok(UnityShaderGpuProgramType::GLCore32),
            7 => Ok(UnityShaderGpuProgramType::GLCore41),
            8 => Ok(UnityShaderGpuProgramType::GLCore43),
            9 => Ok(UnityShaderGpuProgramType::DX9VertexSM20),
            10 => Ok(UnityShaderGpuProgramType::DX9VertexSM30),
            11 => Ok(UnityShaderGpuProgramType::DX9PixelSM20),
            12 => Ok(UnityShaderGpuProgramType::DX9PixelSM30),
            13 => Ok(UnityShaderGpuProgramType::DX10Level9Vertex),
            14 => Ok(UnityShaderGpuProgramType::DX10Level9Pixel),
            15 => Ok(UnityShaderGpuProgramType::DX11VertexSM40),
            16 => Ok(UnityShaderGpuProgramType::DX11VertexSM50),
            17 => Ok(UnityShaderGpuProgramType::DX11PixelSM40),
            18 => Ok(UnityShaderGpuProgramType::DX11PixelSM50),
            19 => Ok(UnityShaderGpuProgramType::DX11GeometrySM40),
            20 => Ok(UnityShaderGpuProgramType::DX11GeometrySM50),
            21 => Ok(UnityShaderGpuProgramType::DX11HullSM50),
            22 => Ok(UnityShaderGpuProgramType::DX11DomainSM50),
            23 => Ok(UnityShaderGpuProgramType::MetalVS),
            24 => Ok(UnityShaderGpuProgramType::MetalFS),
            25 => Ok(UnityShaderGpuProgramType::SPIRV),
            26 => Ok(UnityShaderGpuProgramType::ConsoleVS),
            27 => Ok(UnityShaderGpuProgramType::ConsoleFS),
            28 => Ok(UnityShaderGpuProgramType::ConsoleHS),
            29 => Ok(UnityShaderGpuProgramType::ConsoleDS),
            30 => Ok(UnityShaderGpuProgramType::ConsoleGS),
            31 => Ok(UnityShaderGpuProgramType::RayTracing),
            _ => Err(malformed("unrecognized GPU program type")),
        }
    }
}

/// A GPU program of a pass: its compiled variants.
#[derive(Clone, Debug)]
pub struct UnityShaderSerializedProgram {
    pub sub_programs: Vec<UnityShaderSerializedSubProgram>,
    /// Present where the engine knows common parameters.
    pub common_parameters: Option<UnityShaderSerializedProgramParameters>,
}

/// The value of a [`UnityShaderSerializedProgram`].
pub struct UnityShaderSerializedProgramView {
    pub sub_programs: Seq<UnityShaderSerializedSubProgramView>,
    pub common_parameters: Option<UnityShaderSerializedProgramParametersView>,
}

impl DeepView for UnityShaderSerializedProgram {
    type V = UnityShaderSerializedProgramView;

    open spec fn deep_view(&self) -> UnityShaderSerializedProgramView {
        UnityShaderSerializedProgramView {
            sub_programs: self.sub_programs.deep_view(),
            common_parameters: self.common_parameters.deep_view(),
        }
    }
}

impl Layout for UnityShaderSerializedProgram {
    /// The sub-programs as an array, and where the engine knows them the common
    /// parameters.
    #[verifier::opaque]
    open spec fn wire(data: Seq<u8>, endian: Endianness, version: UnityVersion, pos: nat) -> Wire<
        UnityShaderSerializedProgramView,
    > {
        let s0 = Step::at(pos);
        let (sub_programs, s1) = step(
            s0,
            wire_array::<UnityShaderSerializedSubProgram>(data, endian, version, s0.pos),
        );
        let (common_parameters, s2) = step(
            s1,
            wire_opt::<UnityShaderSerializedProgramParameters>(
                has_common_parameters(version),
                data,
                endian,
                version,
                s1.pos,
            ),
        );
        s2.finish(
            UnityShaderSerializedProgramView {
                sub_programs,
                common_parameters,
            },
        )
    }
}

impl Deserialize for UnityShaderSerializedProgram {
    fn deserialize(reader: &mut AssetReader, asset: &AssetInfo) -> (r: Result<
        Self,
        AssetReaderError,
    >) {
        proof {
            reveal(<UnityShaderSerializedProgram as Layout>::wire);
        }
        let version: UnityVersion = asset.metadata.unity_version;
        let sub_programs: Vec<UnityShaderSerializedSubProgram> =
            UnityShaderSerializedSubProgram::deserialize_array(reader, asset)?;
        let common_parameters: Option<UnityShaderSerializedProgramParameters> =
            read_opt::<UnityShaderSerializedProgramParameters>(
                knows_common_parameters(&version),
                reader,
                asset,
            )?;
        Ok(
            UnityShaderSerializedProgram {
                sub_programs,
                common_parameters,
            },
        )
    }
}

} // verus!
