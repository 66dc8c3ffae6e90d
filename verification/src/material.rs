//! Materials and their property sheets.

use crate::asset::{
    position_of, zip_views, AssetInfo, Endianness, OMap, PersistentPtr, Vec2f,
};
use crate::decode::{step, Step};
use crate::reader::{wire_array, AssetReader, AssetReaderError, Deserialize, Layout};
use crate::version::UnityVersion;
use crate::wire::{wire_align, wire_bool, wire_char_array, wire_i32, wire_u32, Wire};
use vstd::prelude::*;

verus! {

/// A colour: four binary32 channels, each held as its bit pattern.
#[derive(Clone, Copy, Debug, PartialEq, Eq, Structural)]
pub struct ColorRGBAf {
    pub r: u32,
    pub g: u32,
    pub b: u32,
    pub a: u32,
}

impl DeepView for ColorRGBAf {
    type V = ColorRGBAf;

    open spec fn deep_view(&self) -> ColorRGBAf {
        *self
    }
}

impl Layout for ColorRGBAf {
    /// Four binary32 numbers: red, green, blue, alpha.
    #[verifier::opaque]
    open spec fn wire(data: Seq<u8>, endian: Endianness, version: UnityVersion, pos: nat) -> Wire<
        ColorRGBAf,
    > {
        let s0 = Step::at(pos);
        let (r, s1) = step(s0, wire_u32(data, endian, s0.pos));
        let (g, s2) = step(s1, wire_u32(data, endian, s1.pos));
        let (b, s3) = step(s2, wire_u32(data, endian, s2.pos));
        let (a, s4) = step(s3, wire_u32(data, endian, s3.pos));
        s4.finish(
            ColorRGBAf {
                r,
                g,
                b,
                a,
            },
        )
    }
}

impl Deserialize for ColorRGBAf {
    fn deserialize(reader: &mut AssetReader, asset: &AssetInfo) -> (r: Result<
        Self,
        AssetReaderError,
    >) {
        proof {
            reveal(<ColorRGBAf as Layout>::wire);
        }
        let r: u32 = reader.read_f32()?;
        let g: u32 = reader.read_f32()?;
        let b: u32 = reader.read_f32()?;
        let a: u32 = reader.read_f32()?;
        Ok(
            ColorRGBAf {
                r,
                g,
                b,
                a,
            },
        )
    }
}

/// A texture bound to a material, with its scale and offset.
#[derive(Clone, Copy, Debug, PartialEq, Eq, Structural)]
pub struct UnityTexEnv {
    pub texture: PersistentPtr,
    pub scale: Vec2f,
    pub offset: Vec2f,
}

impl DeepView for UnityTexEnv {
    type V = UnityTexEnv;

    open spec fn deep_view(&self) -> UnityTexEnv {
        *self
    }
}

impl Layout for UnityTexEnv {
    /// The pointer to the texture, then scale and offset.
    #[verifier::opaque]
    open spec fn wire(data: Seq<u8>, endian: Endianness, version: UnityVersion, pos: nat) -> Wire<
        UnityTexEnv,
    > {
        let s0 = Step::at(pos);
        let (texture, s1) = step(s0, PersistentPtr::wire(data, endian, version, s0.pos));
        let (scale, s2) = step(s1, Vec2f::wire(data, endian, version, s1.pos));
        let (offset, s3) = step(s2, Vec2f::wire(data, endian, version, s2.pos));
        s3.finish(
            UnityTexEnv {
                texture,
                scale,
                offset,
            },
        )
    }
}

impl Deserialize for UnityTexEnv {
    fn deserialize(reader: &mut AssetReader, asset: &AssetInfo) -> (r: Result<
        Self,
        AssetReaderError,
    >) {
        proof {
            reveal(<UnityTexEnv as Layout>::wire);
        }
        let texture: PersistentPtr = PersistentPtr::deserialize(reader, asset)?;
        let scale: Vec2f = Vec2f::deserialize(reader, asset)?;
        let offset: Vec2f = Vec2f::deserialize(reader, asset)?;
        Ok(
            UnityTexEnv {
                texture,
                scale,
                offset,
            },
        )
    }
}

/// The saved properties of a material: texture environments, floats and
/// colours, each an ordered map from names in file order.
#[derive(Clone, Debug)]
pub struct UnityPropertySheet {
    tex_envs: OMap<String, UnityTexEnv>,
    floats: OMap<String, u32>,
    colors: OMap<String, ColorRGBAf>,
}

/// The value of a [`UnityPropertySheet`]: each map as its pairs of name and
/// value, in file order.
pub struct UnityPropertySheetView {
    pub tex_envs: Seq<(Seq<char>, UnityTexEnv)>,
    pub floats: Seq<(Seq<char>, u32)>,
    pub colors: Seq<(Seq<char>, ColorRGBAf)>,
}

impl DeepView for UnityPropertySheet {
    type V = UnityPropertySheetView;

    closed spec fn deep_view(&self) -> UnityPropertySheetView {
        UnityPropertySheetView {
            tex_envs: self.tex_envs.deep_view(),
            floats: self.floats.deep_view(),
            colors: self.colors.deep_view(),
        }
    }
}

impl Layout for UnityPropertySheet {
    /// Three ordered maps back to back: texture environments, floats, colours.
    #[verifier::opaque]
    open spec fn wire(data: Seq<u8>, endian: Endianness, version: UnityVersion, pos: nat) -> Wire<
        UnityPropertySheetView,
    > {
        let s0 = Step::at(pos);
        let (tex_envs, s1) = step(
            s0,
            <OMap<String, UnityTexEnv>>::wire(data, endian, version, s0.pos),
        );
        let (floats, s2) = step(s1, <OMap<String, u32>>::wire(data, endian, version, s1.pos));
        let (colors, s3) = step(
            s2,
            <OMap<String, ColorRGBAf>>::wire(data, endian, version, s2.pos),
        );
        s3.finish(
            UnityPropertySheetView {
                tex_envs,
                floats,
                colors,
            },
        )
    }
}

impl Deserialize for UnityPropertySheet {
    fn deserialize(reader: &mut AssetReader, asset: &AssetInfo) -> (r: Result<
        Self,
        AssetReaderError,
    >) {
        proof {
            reveal(<UnityPropertySheet as Layout>::wire);
        }
        let tex_envs: OMap<String, UnityTexEnv> = <OMap<String, UnityTexEnv>>::deserialize(
            reader,
            asset,
        )?;
        let floats: OMap<String, u32> = <OMap<String, u32>>::deserialize(reader, asset)?;
        let colors: OMap<String, ColorRGBAf> = <OMap<String, ColorRGBAf>>::deserialize(
            reader,
            asset,
        )?;
        Ok(
            UnityPropertySheet {
                tex_envs,
                floats,
                colors,
            },
        )
    }
}

/// The value under the first key equal to `name` among `pairs`, from
/// position `from` on.
pub open spec fn first_named<V>(pairs: Seq<(Seq<char>, V)>, name: Seq<char>, from: int) -> Option<
    V,
>
    decreases pairs.len() - from,
{
    if from < 0 || from >= pairs.len() {
        None
    } else if pairs[from].0 == name {
        Some(pairs[from].1)
    } else {
        first_named(pairs, name, from + 1)
    }
}

/// Looking a name up among keys and values finds what `first_named` finds
/// among their pairs.
proof fn lookup_in_pairs(keys: Seq<String>, vals: Seq<UnityTexEnv>, name: Seq<char>, from: int)
    requires
        keys.len() == vals.len(),
        0 <= from,
    ensures
        first_named(zip_views(keys, vals), name, from) == match position_of(keys, name, from) {
            Some(i) => Some(vals[i]),
            None => None,
        },
    decreases keys.len() - from,
{
    if from < keys.len() && keys[from]@ != name {
        lookup_in_pairs(keys, vals, name, from + 1);
    }
}

/// A property sheet keeps file order: its maps are the three ordered maps
/// that stand back to back at its position, first the texture environments,
/// then the floats, then the colours. Within each map the pairs are in file
/// order as well, as `map_in_file_order` states for every ordered map.
pub proof fn sheet_in_file_order(data: Seq<u8>, endian: Endianness, version: UnityVersion, pos: nat)
    requires
        UnityPropertySheet::wire(data, endian, version, pos) is Ok,
    ensures
        ({
            let (sheet, end) = UnityPropertySheet::wire(data, endian, version, pos)->Ok_0;
            let tex_envs = <OMap<String, UnityTexEnv>>::wire(data, endian, version, pos);
            let floats = <OMap<String, u32>>::wire(data, endian, version, tex_envs->Ok_0.1);
            let colors = <OMap<String, ColorRGBAf>>::wire(data, endian, version, floats->Ok_0.1);
            &&& tex_envs is Ok && sheet.tex_envs == tex_envs->Ok_0.0
            &&& floats is Ok && sheet.floats == floats->Ok_0.0
            &&& colors is Ok && sheet.colors == colors->Ok_0.0
            &&& end == colors->Ok_0.1
        }),
{
    reveal(<UnityPropertySheet as Layout>::wire);
}

impl UnityPropertySheet {
    /// Number of texture environments.
    pub fn get_tex_env_count(&self) -> (n: usize)
        ensures
            n == self.deep_view().tex_envs.len(),
    {
        self.tex_envs.len()
    }

    /// Name of the texture environment at `idx`, in file order.
    pub fn get_tex_env_name(&self, idx: usize) -> (r: String)
        requires
            idx < self.deep_view().tex_envs.len(),
        ensures
            r@ == self.deep_view().tex_envs[idx as int].0,
    {
        self.tex_envs.keys()[idx].clone()
    }

    /// The texture environment at `idx`, in file order.
    pub fn get_tex_env(&self, idx: usize) -> (r: Option<UnityTexEnv>)
        requires
            idx < self.deep_view().tex_envs.len(),
        ensures
            r == Some(self.deep_view().tex_envs[idx as int].1),
    {
        Some(self.tex_envs.vals()[idx])
    }

    /// The texture environment under the first name equal to `name`.
    pub fn find_tex_env(&self, name: String) -> (r: Option<UnityTexEnv>)
        ensures
            r == first_named(self.deep_view().tex_envs, name@, 0),
    {
        let _n: usize = self.tex_envs.len();
        proof {
            lookup_in_pairs(self.tex_envs.key_seq(), self.tex_envs.val_seq(), name@, 0);
        }
        self.tex_envs.find(name)
    }

    /// Number of float properties.
    pub fn get_float_count(&self) -> (n: usize)
        ensures
            n == self.deep_view().floats.len(),
    {
        self.floats.len()
    }

    /// Name of the float property at `idx`, in file order.
    pub fn get_float_name(&self, idx: usize) -> (r: String)
        requires
            idx < self.deep_view().floats.len(),
        ensures
            r@ == self.deep_view().floats[idx as int].0,
    {
        self.floats.keys()[idx].clone()
    }

    /// The float property at `idx`, in file order, as a binary32 bit
    /// pattern.
    pub fn get_float(&self, idx: usize) -> (r: u32)
        requires
            idx < self.deep_view().floats.len(),
        ensures
            r == self.deep_view().floats[idx as int].1,
    {
        self.floats.vals()[idx]
    }

    /// Number of colour properties.
    pub fn get_color_count(&self) -> (n: usize)
        ensures
            n == self.deep_view().colors.len(),
    {
        self.colors.len()
    }

    /// Name of the colour property at `idx`, in file order.
    pub fn get_color_name(&self, idx: usize) -> (r: String)
        requires
            idx < self.deep_view().colors.len(),
        ensures
            r@ == self.deep_view().colors[idx as int].0,
    {
        self.colors.keys()[idx].clone()
    }

    /// The colour property at `idx`, in file order.
    pub fn get_color(&self, idx: usize) -> (r: ColorRGBAf)
        requires
            idx < self.deep_view().colors.len(),
        ensures
            r == self.deep_view().colors[idx as int].1,
    {
        self.colors.vals()[idx]
    }
}

/// A material object.
#[derive(Clone, Debug)]
pub struct UnityMaterial {
    pub name: String,
    pub shader: PersistentPtr,
    pub keywords: String,
    pub saved_properties: UnityPropertySheet,
}

/// The value of a [`UnityMaterial`].
pub struct UnityMaterialView {
    pub name: Seq<char>,
    pub shader: PersistentPtr,
    pub keywords: Seq<char>,
    pub saved_properties: UnityPropertySheetView,
}

impl DeepView for UnityMaterial {
    type V = UnityMaterialView;

    open spec fn deep_view(&self) -> UnityMaterialView {
        UnityMaterialView {
            name: self.name.deep_view(),
            shader: self.shader,
            keywords: self.keywords.deep_view(),
            saved_properties: self.saved_properties.deep_view(),
        }
    }
}

impl Layout for UnityMaterial {
    /// The name, the pointer to the shader, the keywords, and the property
    /// sheet. Between keywords and property sheet stand, all dropped: `u32`
    /// lightmap flags, the instancing and the double-sided flag, alignment to
    /// 4, the `i32` render queue, the tags as an ordered map of strings, and
    /// the disabled passes as an array of strings.
    #[verifier::opaque]
    open spec fn wire(data: Seq<u8>, endian: Endianness, version: UnityVersion, pos: nat) -> Wire<
        UnityMaterialView,
    > {
        let s0 = Step::at(pos);
        let (name, s1) = step(s0, wire_char_array(data, endian, s0.pos));
        let (shader, s2) = step(s1, PersistentPtr::wire(data, endian, version, s1.pos));
        let (keywords, s3) = step(s2, wire_char_array(data, endian, s2.pos));
        let (_lightmap_flags, s4) = step(s3, wire_u32(data, endian, s3.pos));
        let (_enable_instancing_variants, s5) = step(s4, wire_bool(data, s4.pos));
        let (_double_sided_gi, s6) = step(s5, wire_bool(data, s5.pos));
        let (_, s7) = step(s6, wire_align(s6.pos));
        let (_custom_render_queue, s8) = step(s7, wire_i32(data, endian, s7.pos));
        let (_string_tag_map, s9) = step(
            s8,
            <OMap<String, String>>::wire(data, endian, version, s8.pos),
        );
        let (_disabled_shader_passes, s10) = step(
            s9,
            wire_array::<String>(data, endian, version, s9.pos),
        );
        let (saved_properties, s11) = step(
            s10,
            UnityPropertySheet::wire(data, endian, version, s10.pos),
        );
        s11.finish(
            UnityMaterialView {
                name,
                shader,
                keywords,
                saved_properties,
            },
        )
    }
}

impl Deserialize for UnityMaterial {
    fn deserialize(reader: &mut AssetReader, asset: &AssetInfo) -> (r: Result<
        Self,
        AssetReaderError,
    >) {
        proof {
            reveal(<UnityMaterial as Layout>::wire);
        }
        let name: String = reader.read_char_array()?;
        let shader: PersistentPtr = PersistentPtr::deserialize(reader, asset)?;
        let keywords: String = reader.read_char_array()?;
        let _lightmap_flags: u32 = reader.read_u32()?;
        let _enable_instancing_variants: bool = reader.read_bool()?;
        let _double_sided_gi: bool = reader.read_bool()?;
        reader.align()?;
        let _custom_render_queue: i32 = reader.read_i32()?;
        let _string_tag_map: OMap<String, String> = <OMap<String, String>>::deserialize(
            reader,
            asset,
        )?;
        let _disabled_shader_passes: Vec<String> = String::deserialize_array(reader, asset)?;
        let saved_properties: UnityPropertySheet = UnityPropertySheet::deserialize(reader, asset)?;
        Ok(
            UnityMaterial {
                name,
                shader,
                keywords,
                saved_properties,
            },
        )
    }
}

impl UnityMaterial {
    /// Decodes a material from the bytes of its object, in the byte order
    /// and for the engine version of the container `asset`.
    pub fn from_bytes(data: Vec<u8>, asset: &AssetInfo) -> (r: Result<
        UnityMaterial,
        AssetReaderError,
    >)
        ensures
            match UnityMaterial::wire(
                data@,
                asset.header.endianness,
                asset.metadata.unity_version,
                0,
            ) {
                Ok((v, _)) => r is Ok && r->Ok_0.deep_view() == v,
                Err(e) => r is Err && r->Err_0@ == e,
            },
    {
        let mut reader = AssetReader::new(data);
        reader.set_endianness(asset.header.endianness);
        UnityMaterial::deserialize(&mut reader, asset)
    }
}

} // verus!
