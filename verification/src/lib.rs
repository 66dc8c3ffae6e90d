//! Decoder for serialized asset containers and for the material and shader
//! objects stored inside them.
//!
//! A container is decoded from an in-memory buffer. [`reader::AssetReader`]
//! is the cursor over the buffer; its `read_asset_info` yields the
//! container's directory, and [`material::UnityMaterial`] and
//! [`shader::UnityShader`] decode the bytes of an object that the directory
//! points to.
//!
//! Every decoder has its layout as a spec function, named `wire` or
//! `wire_..`, that says what the bytes at a position mean: the value and the
//! position behind it, or the failure. The executable decoder returns what
//! the layout yields. Layouts of records are opaque, so that a proof sees a
//! nested record as one term; `reveal` opens them.
//!
//! Binary32 numbers are held as their bit patterns, of type `u32`.

pub mod asset;
pub mod container;
pub mod decode;
pub mod endian;
pub mod material;
pub mod program;
pub mod reader;
pub mod shader;
pub mod version;
pub mod wire;
