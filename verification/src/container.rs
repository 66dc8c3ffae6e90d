//! The container's directory: header, metadata, object index, script and
//! external references, reference types. Each part has its layout as a spec
//! function and a reader method that decodes by it.

use crate::asset::{
    AssetHeader, AssetInfo, AssetInfoView, AssetMetadata, AssetMetadataView, Endianness, External,
    ExternalView, ScriptType, SerializedType, SerializedTypeView, TypeTreeNode, TypeTreeNodeView,
    UnityObject, UnityObjectView,
};
use crate::reader::{
    count_of, decoded, decoded_seq, malformed, AssetReader, AssetReaderError, SeekFrom,
};
use crate::version::{parse_version, UnityVersion};
use crate::wire::{
    bad_seek, first_zero_is_first, wire_align, wire_bool, wire_bytes, wire_cstring, wire_i16,
    wire_i32, wire_i64, wire_repeat, wire_repeat_fail, wire_skip, wire_u32, wire_u32_array,
    wire_u64, wire_u8, Failure, IoFault, Wire,
};
use vstd::prelude::*;

verus! {

/// The container versions that are decoded.
pub open spec fn supported(version: u32) -> bool {
    17 <= version <= 22
}

/// Message of the failure on a negative node count in a type tree.
pub open spec fn negative_node_count() -> Seq<char> {
    "negative node count in a type tree"@
}

/// Message of the failure on a negative string buffer size in a type tree.
pub open spec fn negative_buffer_size() -> Seq<char> {
    "negative string buffer size in a type tree"@
}

/// Message of the failure on a type tree nested deeper than 255 levels.
pub open spec fn tree_too_deep() -> Seq<char> {
    "type tree nested too deep"@
}

/// Message of the failure on an object offset that leaves the 64-bit range
/// once the data offset is added.
pub open spec fn offset_out_of_range() -> Seq<char> {
    "object offset out of range"@
}

/// The byte order that the header's flag byte stands for.
pub open spec fn endianness_of(flag: u8) -> Endianness {
    if flag == 0 {
        Endianness::Little
    } else {
        Endianness::Big
    }
}

/// The wide fields that replace the narrow ones from version 22 on:
/// metadata size, file size, data offset, and eight bytes that are dropped.
pub open spec fn wire_header_wide(data: Seq<u8>, version: u8, flag: u8, pos: nat) -> Wire<
    AssetHeader,
> {
    let big = Endianness::Big;
    match wire_u32(data, big, pos) {
        Err(e) => Err(e),
        Ok((metadata_size, p1)) => match wire_i64(data, big, p1) {
            Err(e) => Err(e),
            Ok((file_size, p2)) => match wire_i64(data, big, p2) {
                Err(e) => Err(e),
                Ok((data_offset, p3)) => match wire_i64(data, big, p3) {
                    Err(e) => Err(e),
                    Ok((_, p4)) => Ok(
                        (
                            AssetHeader {
                                metadata_size,
                                file_size,
                                version,
                                data_offset,
                                endianness: endianness_of(flag),
                            },
                            p4,
                        ),
                    ),
                },
            },
        },
    }
}

/// The header. Its multi-byte fields are big-endian whatever the file's
/// byte order: metadata size, file size, version, data offset, the byte
/// order flag, three reserved bytes, and from version 22 the wide fields.
pub open spec fn wire_header(data: Seq<u8>, pos: nat) -> Wire<AssetHeader> {
    let big = Endianness::Big;
    match wire_u32(data, big, pos) {
        Err(e) => Err(e),
        Ok((metadata_size, p1)) => match wire_u32(data, big, p1) {
            Err(e) => Err(e),
            Ok((file_size, p2)) => match wire_u32(data, big, p2) {
                Err(e) => Err(e),
                Ok((version, p3)) => if !supported(version) {
                    Err(Failure::UnsupportedFileVersion(version))
                } else {
                    match wire_u32(data, big, p3) {
                        Err(e) => Err(e),
                        Ok((data_offset, p4)) => match wire_u8(data, p4) {
                            Err(e) => Err(e),
                            Ok((flag, p5)) => match wire_skip(p5, 3) {
                                Err(e) => Err(e),
                                Ok((_, p6)) => if version >= 22 {
                                    wire_header_wide(data, version as u8, flag, p6)
                                } else {
                                    Ok(
                                        (
                                            AssetHeader {
                                                metadata_size,
                                                file_size: file_size as i64,
                                                version: version as u8,
                                                data_offset: data_offset as i64,
                                                endianness: endianness_of(flag),
                                            },
                                            p6,
                                        ),
                                    )
                                },
                            },
                        },
                    }
                },
            },
        },
    }
}

/// A flag that is on the wire only where `present`, and `absent` otherwise.
pub open spec fn wire_bool_if(present: bool, absent: bool, data: Seq<u8>, pos: nat) -> Wire<bool> {
    if present {
        wire_bool(data, pos)
    } else {
        Ok((absent, pos))
    }
}

/// 16 bytes that are on the wire only where `present`; none otherwise.
pub open spec fn wire_hash_if(present: bool, data: Seq<u8>, pos: nat) -> Wire<Seq<u8>> {
    if present {
        wire_bytes(data, pos, 16)
    } else {
        Ok((Seq::empty(), pos))
    }
}

/// An `i32` that is on the wire only where `present`.
pub open spec fn wire_i32_if(present: bool, data: Seq<u8>, endian: Endianness, pos: nat) -> Wire<
    Option<i32>,
> {
    if present {
        match wire_i32(data, endian, pos) {
            Err(e) => Err(e),
            Ok((v, p)) => Ok((Some(v), p)),
        }
    } else {
        Ok((None, pos))
    }
}

/// One node of a type tree in the recursive encoding, without its child
/// count: type and name as zero-terminated strings, byte size, variable
/// count in version 2, index unless version 3, flags, version, and meta
/// flag unless version 3.
pub open spec fn wire_tree_node(
    data: Seq<u8>,
    endian: Endianness,
    version: u8,
    level: u8,
    pos: nat,
) -> Wire<TypeTreeNodeView> {
    match wire_cstring(data, pos) {
        Err(e) => Err(e),
        Ok((typ, p1)) => match wire_cstring(data, p1) {
            Err(e) => Err(e),
            Ok((name, p2)) => match wire_i32(data, endian, p2) {
                Err(e) => Err(e),
                Ok((byte_size, p3)) => match wire_i32_if(version == 2, data, endian, p3) {
                    Err(e) => Err(e),
                    Ok((variable_count, p4)) => match wire_i32_if(version != 3, data, endian, p4) {
                        Err(e) => Err(e),
                        Ok((index, p5)) => match wire_i32(data, endian, p5) {
                            Err(e) => Err(e),
                            Ok((type_flags, p6)) => match wire_i32(data, endian, p6) {
                                Err(e) => Err(e),
                                Ok((node_version, p7)) => match wire_i32_if(
                                    version != 3,
                                    data,
                                    endian,
                                    p7,
                                ) {
                                    Err(e) => Err(e),
                                    Ok((meta_flag, p8)) => Ok(
                                        (
                                            TypeTreeNodeView {
                                                typ: Some(typ),
                                                name: Some(name),
                                                byte_size,
                                                index,
                                                version: node_version,
                                                meta_flag,
                                                level,
                                                type_str_offset: None,
                                                name_str_offset: None,
                                                ref_type_hash: None,
                                                type_flags,
                                                variable_count,
                                            },
                                            p8,
                                        ),
                                    ),
                                },
                            },
                        },
                    },
                },
            },
        },
    }
}

/// A node takes at least its two string terminators and ends inside the
/// buffer.
pub proof fn tree_node_advances(data: Seq<u8>, endian: Endianness, version: u8, level: u8, pos: nat)
    ensures
        wire_tree_node(data, endian, version, level, pos) matches Ok((_, p)) ==> pos + 2 <= p
            <= data.len(),
{
    reveal(wire_cstring);
    reveal(wire_i32);
    first_zero_is_first(data, pos);
    if let Ok((_, p1)) = wire_cstring(data, pos) {
        first_zero_is_first(data, p1);
    }
}

/// The stack of a tree walk once its top `(level, remaining)` is taken: the
/// entry returns with one node less while more than one remain.
pub open spec fn after_pop(stack: Seq<(u8, i32)>) -> Seq<(u8, i32)> {
    let top = stack.last();
    if top.1 > 1 {
        stack.drop_last().push((top.0, (top.1 - 1) as i32))
    } else {
        stack.drop_last()
    }
}

/// The walk over a type tree in the recursive encoding. `stack` holds, for
/// each open level, the level and the number of nodes still due on it;
/// `nodes` are the nodes read so far. Each step takes the top of the stack,
/// reads a node on that level and its child count, and opens the next level
/// for the children.
pub open spec fn wire_tree_walk(
    data: Seq<u8>,
    endian: Endianness,
    version: u8,
    pos: nat,
    stack: Seq<(u8, i32)>,
    nodes: Seq<TypeTreeNodeView>,
) -> Wire<Seq<TypeTreeNodeView>>
    decreases data.len() - pos,
    via wire_tree_walk_ends
{
    if stack.len() == 0 {
        Ok((nodes, pos))
    } else {
        let level = stack.last().0;
        match wire_tree_node(data, endian, version, level, pos) {
            Err(e) => Err(e),
            Ok((node, p)) => match wire_i32(data, endian, p) {
                Err(e) => Err(e),
                Ok((children, q)) => if children <= 0 {
                    wire_tree_walk(data, endian, version, q, after_pop(stack), nodes.push(node))
                } else if level == u8::MAX {
                    Err(Failure::DeserializationError(tree_too_deep()))
                } else {
                    wire_tree_walk(
                        data,
                        endian,
                        version,
                        q,
                        after_pop(stack).push(((level + 1) as u8, children)),
                        nodes.push(node),
                    )
                },
            },
        }
    }
}

/// Each step of the walk moves the cursor on, and never past the end.
#[via_fn]
proof fn wire_tree_walk_ends(
    data: Seq<u8>,
    endian: Endianness,
    version: u8,
    pos: nat,
    stack: Seq<(u8, i32)>,
    nodes: Seq<TypeTreeNodeView>,
) {
    reveal(wire_i32);
    if stack.len() != 0 {
        tree_node_advances(data, endian, version, stack.last().0, pos);
    }
}

/// A type tree in the recursive encoding: the walk from one node due on
/// level 0.
pub open spec fn wire_type_tree(data: Seq<u8>, endian: Endianness, version: u8, pos: nat) -> Wire<
    Seq<TypeTreeNodeView>,
> {
    wire_tree_walk(data, endian, version, pos, seq![(0u8, 1i32)], Seq::empty())
}

/// A `u64` that is on the wire only where `present`.
pub open spec fn wire_u64_if(present: bool, data: Seq<u8>, endian: Endianness, pos: nat) -> Wire<
    Option<u64>,
> {
    if present {
        match wire_u64(data, endian, pos) {
            Err(e) => Err(e),
            Ok((v, p)) => Ok((Some(v), p)),
        }
    } else {
        Ok((None, pos))
    }
}

/// One node of a type tree in the blob encoding: `i16` version, `u8`
/// level, `u8` flags, two `u32` string offsets, `i32` byte size, index and
/// meta flag, and from container version 19 a `u64` hash.
pub open spec fn wire_blob_node(data: Seq<u8>, endian: Endianness, version: u8, pos: nat) -> Wire<
    TypeTreeNodeView,
> {
    match wire_i16(data, endian, pos) {
        Err(e) => Err(e),
        Ok((node_version, p1)) => match wire_u8(data, p1) {
            Err(e) => Err(e),
            Ok((level, p2)) => match wire_u8(data, p2) {
                Err(e) => Err(e),
                Ok((type_flags, p3)) => match wire_u32(data, endian, p3) {
                    Err(e) => Err(e),
                    Ok((type_str_offset, p4)) => match wire_u32(data, endian, p4) {
                        Err(e) => Err(e),
                        Ok((name_str_offset, p5)) => match wire_i32(data, endian, p5) {
                            Err(e) => Err(e),
                            Ok((byte_size, p6)) => match wire_i32(data, endian, p6) {
                                Err(e) => Err(e),
                                Ok((index, p7)) => match wire_i32(data, endian, p7) {
                                    Err(e) => Err(e),
                                    Ok((meta_flag, p8)) => match wire_u64_if(
                                        version >= 19,
                                        data,
                                        endian,
                                        p8,
                                    ) {
                                        Err(e) => Err(e),
                                        Ok((ref_type_hash, p9)) => Ok(
                                            (
                                                TypeTreeNodeView {
                                                    typ: None,
                                                    name: None,
                                                    byte_size,
                                                    index: Some(index),
                                                    version: node_version as i32,
                                                    meta_flag: Some(meta_flag),
                                                    level,
                                                    type_str_offset: Some(type_str_offset),
                                                    name_str_offset: Some(name_str_offset),
                                                    ref_type_hash,
                                                    type_flags: type_flags as i32,
                                                    variable_count: None,
                                                },
                                                p9,
                                            ),
                                        ),
                                    },
                                },
                            },
                        },
                    },
                },
            },
        },
    }
}

/// The decoder of blob nodes for a buffer, byte order and container
/// version.
pub open spec fn blob_node_at(data: Seq<u8>, endian: Endianness, version: u8) -> spec_fn(
    nat,
) -> Wire<TypeTreeNodeView> {
    |pos: nat| wire_blob_node(data, endian, version, pos)
}

/// A type tree in the blob encoding: node count and string buffer size as
/// `i32`, the nodes, then the string buffer. A negative count or size is
/// a failure.
pub open spec fn wire_type_tree_blob(
    data: Seq<u8>,
    endian: Endianness,
    version: u8,
    pos: nat,
) -> Wire<(Seq<TypeTreeNodeView>, Seq<u8>)> {
    match wire_i32(data, endian, pos) {
        Err(e) => Err(e),
        Ok((number_of_nodes, p1)) => match wire_i32(data, endian, p1) {
            Err(e) => Err(e),
            Ok((string_buffer_size, p2)) => if number_of_nodes < 0 {
                Err(Failure::DeserializationError(negative_node_count()))
            } else {
                match wire_repeat(
                    blob_node_at(data, endian, version),
                    p2,
                    number_of_nodes as nat,
                ) {
                    Err(e) => Err(e),
                    Ok((nodes, p3)) => if string_buffer_size < 0 {
                        Err(Failure::DeserializationError(negative_buffer_size()))
                    } else {
                        match wire_bytes(data, p3, string_buffer_size as nat) {
                            Err(e) => Err(e),
                            Ok((strings, p4)) => Ok(((nodes, strings), p4)),
                        }
                    },
                }
            },
        },
    }
}

/// Whether a type entry carries a script GUID.
pub open spec fn has_script_id(
    version: u8,
    is_ref_type: bool,
    script_type_index: i16,
    class_id: i32,
) -> bool {
    version >= 13 && ((is_ref_type && script_type_index >= 0) || class_id < 0 || class_id == 114)
}

/// Whether type trees of this container version use the blob encoding.
pub open spec fn blob_encoded(version: u8) -> bool {
    version >= 12 || version == 10
}

/// The type tree of an entry, in the encoding of the container version.
/// Only the position behind it matters to the entry.
pub open spec fn wire_any_tree(data: Seq<u8>, endian: Endianness, version: u8, pos: nat) -> Wire<
    (),
> {
    if blob_encoded(version) {
        match wire_type_tree_blob(data, endian, version, pos) {
            Err(e) => Err(e),
            Ok((_, p)) => Ok(((), p)),
        }
    } else {
        match wire_type_tree(data, endian, version, pos) {
            Err(e) => Err(e),
            Ok((_, p)) => Ok(((), p)),
        }
    }
}

/// What follows the hashes of a type entry where type trees are enabled:
/// the tree, and from version 21 either the three names of a reference type
/// or the type dependencies.
pub open spec fn wire_type_tail(
    data: Seq<u8>,
    endian: Endianness,
    version: u8,
    is_ref_type: bool,
    head: SerializedTypeView,
    pos: nat,
) -> Wire<SerializedTypeView> {
    match wire_any_tree(data, endian, version, pos) {
        Err(e) => Err(e),
        Ok((_, p1)) => if version < 21 {
            Ok((head, p1))
        } else if is_ref_type {
            match wire_cstring(data, p1) {
                Err(e) => Err(e),
                Ok((class_name, p2)) => match wire_cstring(data, p2) {
                    Err(e) => Err(e),
                    Ok((name_space, p3)) => match wire_cstring(data, p3) {
                        Err(e) => Err(e),
                        Ok((asm_name, p4)) => Ok(
                            (SerializedTypeView { class_name, name_space, asm_name, ..head }, p4),
                        ),
                    },
                },
            }
        } else {
            match wire_u32_array(data, endian, p1) {
                Err(e) => Err(e),
                Ok((type_dependencies, p2)) => Ok(
                    (SerializedTypeView { type_dependencies, ..head }, p2),
                ),
            }
        },
    }
}

/// One entry of a type table: class id, stripped flag from version 16,
/// script type index from version 17 (-1 before), script GUID where the
/// entry has one, old type hash from version 13, and the tail where type
/// trees are enabled.
pub open spec fn wire_serialized_type(
    data: Seq<u8>,
    endian: Endianness,
    version: u8,
    is_ref_type: bool,
    enable_type_tree: bool,
    pos: nat,
) -> Wire<SerializedTypeView> {
    match wire_i32(data, endian, pos) {
        Err(e) => Err(e),
        Ok((class_id, p1)) => match wire_bool_if(version >= 16, false, data, p1) {
            Err(e) => Err(e),
            Ok((is_stripped_type, p2)) => match (if version >= 17 {
                wire_i16(data, endian, p2)
            } else {
                Ok((-1i16, p2))
            }) {
                Err(e) => Err(e),
                Ok((script_type_index, p3)) => match wire_hash_if(
                    has_script_id(version, is_ref_type, script_type_index, class_id),
                    data,
                    p3,
                ) {
                    Err(e) => Err(e),
                    Ok((script_id, p4)) => match wire_hash_if(version >= 13, data, p4) {
                        Err(e) => Err(e),
                        Ok((old_type_hash, p5)) => {
                            let head = SerializedTypeView {
                                class_id,
                                is_stripped_type,
                                script_type_index,
                                script_id,
                                old_type_hash,
                                type_dependencies: Seq::empty(),
                                type_tree: None,
                                class_name: Seq::empty(),
                                name_space: Seq::empty(),
                                asm_name: Seq::empty(),
                            };
                            if enable_type_tree {
                                wire_type_tail(data, endian, version, is_ref_type, head, p5)
                            } else {
                                Ok((head, p5))
                            }
                        },
                    },
                },
            },
        },
    }
}

/// The decoder of type entries for a buffer and the settings of a table.
pub open spec fn type_at(
    data: Seq<u8>,
    endian: Endianness,
    version: u8,
    is_ref_type: bool,
    enable_type_tree: bool,
) -> spec_fn(nat) -> Wire<SerializedTypeView> {
    |pos: nat| wire_serialized_type(data, endian, version, is_ref_type, enable_type_tree, pos)
}

/// The metadata: engine version as a zero-terminated string, target
/// platform, the type-tree flag from version 13 (on before), and the type
/// table behind its `u32` count.
pub open spec fn wire_metadata(data: Seq<u8>, endian: Endianness, version: u8, pos: nat) -> Wire<
    AssetMetadataView,
> {
    match wire_cstring(data, pos) {
        Err(e) => Err(e),
        Ok((text, p1)) => match parse_version(text) {
            Err(e) => Err(Failure::InvalidVersion(e)),
            Ok(unity_version) => match wire_u32(data, endian, p1) {
                Err(e) => Err(e),
                Ok((target_platform, p2)) => match wire_bool_if(version >= 13, true, data, p2) {
                    Err(e) => Err(e),
                    Ok((enable_type_tree, p3)) => match wire_u32(data, endian, p3) {
                        Err(e) => Err(e),
                        Ok((type_count, p4)) => match wire_repeat(
                            type_at(data, endian, version, false, enable_type_tree),
                            p4,
                            type_count as nat,
                        ) {
                            Err(e) => Err(e),
                            Ok((types, p5)) => Ok(
                                (
                                    AssetMetadataView {
                                        unity_version,
                                        target_platform,
                                        enable_type_tree,
                                        types,
                                    },
                                    p5,
                                ),
                            ),
                        },
                    },
                },
            },
        },
    }
}

/// The offset of an object's bytes as the index gives it: `i64` in version
/// 22, `u32` otherwise.
pub open spec fn wire_offset(data: Seq<u8>, endian: Endianness, version: u8, pos: nat) -> Wire<
    i64,
> {
    if version == 22 {
        wire_i64(data, endian, pos)
    } else {
        match wire_u32(data, endian, pos) {
            Err(e) => Err(e),
            Ok((v, p)) => Ok((v as i64, p)),
        }
    }
}

/// One record of the object index: alignment to 4, path id (`i64`, kept as
/// `i32`), offset, byte size, type index. The data offset is added to the
/// offset; the type index must name an entry of `types`.
pub open spec fn wire_object(
    data: Seq<u8>,
    endian: Endianness,
    header: AssetHeader,
    types: Seq<SerializedTypeView>,
    pos: nat,
) -> Wire<UnityObjectView> {
    match wire_align(pos) {
        Err(e) => Err(e),
        Ok((_, p0)) => match wire_i64(data, endian, p0) {
            Err(e) => Err(e),
            Ok((path_id, p1)) => match wire_offset(data, endian, header.version, p1) {
                Err(e) => Err(e),
                Ok((offset, p2)) => if !(i64::MIN <= offset + header.data_offset <= i64::MAX) {
                    Err(Failure::DeserializationError(offset_out_of_range()))
                } else {
                    match wire_u32(data, endian, p2) {
                        Err(e) => Err(e),
                        Ok((byte_size, p3)) => match wire_i32(data, endian, p3) {
                            Err(e) => Err(e),
                            Ok((type_id, p4)) => if !(0 <= type_id < types.len()) {
                                Err(Failure::MissingType(type_id))
                            } else {
                                Ok(
                                    (
                                        UnityObjectView {
                                            path_id: path_id as i32,
                                            byte_start: (offset + header.data_offset) as i64,
                                            byte_size,
                                            type_id,
                                            serialized_type: types[type_id as int],
                                            class_id: types[type_id as int].class_id,
                                        },
                                        p4,
                                    ),
                                )
                            },
                        },
                    }
                },
            },
        },
    }
}

/// The decoder of object records for a buffer, header and type table.
pub open spec fn object_at(
    data: Seq<u8>,
    endian: Endianness,
    header: AssetHeader,
    types: Seq<SerializedTypeView>,
) -> spec_fn(nat) -> Wire<UnityObjectView> {
    |pos: nat| wire_object(data, endian, header, types, pos)
}

/// The object index: an `i32` count, then the records.
pub open spec fn wire_objects(
    data: Seq<u8>,
    endian: Endianness,
    header: AssetHeader,
    types: Seq<SerializedTypeView>,
    pos: nat,
) -> Wire<Seq<UnityObjectView>> {
    match wire_i32(data, endian, pos) {
        Err(e) => Err(e),
        Ok((n, p)) => wire_repeat(object_at(data, endian, header, types), p, count_of(n)),
    }
}

/// One script reference: `i32` file index, alignment to 4, and an `i64`
/// identifier that is kept as `i32`.
pub open spec fn wire_script_type(data: Seq<u8>, endian: Endianness, pos: nat) -> Wire<
    ScriptType,
> {
    match wire_i32(data, endian, pos) {
        Err(e) => Err(e),
        Ok((local_serialized_file_index, p1)) => match wire_align(p1) {
            Err(e) => Err(e),
            Ok((_, p2)) => match wire_i64(data, endian, p2) {
                Err(e) => Err(e),
                Ok((id, p3)) => Ok(
                    (
                        ScriptType {
                            local_serialized_file_index,
                            local_identifier_in_file: id as i32,
                        },
                        p3,
                    ),
                ),
            },
        },
    }
}

/// The decoder of script references for a buffer.
pub open spec fn script_type_at(data: Seq<u8>, endian: Endianness) -> spec_fn(nat) -> Wire<
    ScriptType,
> {
    |pos: nat| wire_script_type(data, endian, pos)
}

/// The script references: an `i32` count, then the references.
pub open spec fn wire_script_types(data: Seq<u8>, endian: Endianness, pos: nat) -> Wire<
    Seq<ScriptType>,
> {
    match wire_i32(data, endian, pos) {
        Err(e) => Err(e),
        Ok((n, p)) => wire_repeat(script_type_at(data, endian), p, count_of(n)),
    }
}

/// One external reference: a zero-terminated string that is dropped, a
/// 16-byte GUID, an `i32` type, and the path as a zero-terminated string.
pub open spec fn wire_external(data: Seq<u8>, endian: Endianness, pos: nat) -> Wire<ExternalView> {
    match wire_cstring(data, pos) {
        Err(e) => Err(e),
        Ok((_, p1)) => match wire_bytes(data, p1, 16) {
            Err(e) => Err(e),
            Ok((guid, p2)) => match wire_i32(data, endian, p2) {
                Err(e) => Err(e),
                Ok((ext_type, p3)) => match wire_cstring(data, p3) {
                    Err(e) => Err(e),
                    Ok((path_name, p4)) => Ok((ExternalView { guid, ext_type, path_name }, p4)),
                },
            },
        },
    }
}

/// The decoder of external references for a buffer.
pub open spec fn external_at(data: Seq<u8>, endian: Endianness) -> spec_fn(nat) -> Wire<
    ExternalView,
> {
    |pos: nat| wire_external(data, endian, pos)
}

/// The external references: an `i32` count, then the references.
pub open spec fn wire_externals(data: Seq<u8>, endian: Endianness, pos: nat) -> Wire<
    Seq<ExternalView>,
> {
    match wire_i32(data, endian, pos) {
        Err(e) => Err(e),
        Ok((n, p)) => wire_repeat(external_at(data, endian), p, count_of(n)),
    }
}

/// The reference types: an `i32` count, then type entries read as
/// reference types.
pub open spec fn wire_ref_types(
    data: Seq<u8>,
    endian: Endianness,
    version: u8,
    enable_type_tree: bool,
    pos: nat,
) -> Wire<Seq<SerializedTypeView>> {
    match wire_i32(data, endian, pos) {
        Err(e) => Err(e),
        Ok((n, p)) => wire_repeat(
            type_at(data, endian, version, true, enable_type_tree),
            p,
            count_of(n),
        ),
    }
}

/// What follows the object index: script references, externals, reference
/// types from version 20, and the user information string.
pub open spec fn wire_directory_tail(
    data: Seq<u8>,
    header: AssetHeader,
    metadata: AssetMetadataView,
    objects: Seq<UnityObjectView>,
    pos: nat,
) -> Wire<AssetInfoView> {
    let endian = header.endianness;
    match wire_script_types(data, endian, pos) {
        Err(e) => Err(e),
        Ok((script_types, p1)) => match wire_externals(data, endian, p1) {
            Err(e) => Err(e),
            Ok((externals, p2)) => match (if header.version >= 20 {
                wire_ref_types(data, endian, header.version, metadata.enable_type_tree, p2)
            } else {
                Ok((Seq::empty(), p2))
            }) {
                Err(e) => Err(e),
                Ok((ref_types, p3)) => match wire_cstring(data, p3) {
                    Err(e) => Err(e),
                    Ok((user_information, p4)) => Ok(
                        (
                            AssetInfoView {
                                header,
                                metadata,
                                objects,
                                script_types,
                                externals,
                                ref_types,
                                user_information,
                            },
                            p4,
                        ),
                    ),
                },
            },
        },
    }
}

/// The whole directory: the header, and in the byte order it names the
/// metadata, the object index and the tail.
pub open spec fn wire_asset_info(data: Seq<u8>, pos: nat) -> Wire<AssetInfoView> {
    match wire_header(data, pos) {
        Err(e) => Err(e),
        Ok((header, p1)) => match wire_metadata(data, header.endianness, header.version, p1) {
            Err(e) => Err(e),
            Ok((metadata, p2)) => match wire_objects(
                data,
                header.endianness,
                header,
                metadata.types,
                p2,
            ) {
                Err(e) => Err(e),
                Ok((objects, p3)) => wire_directory_tail(data, header, metadata, objects, p3),
            },
        },
    }
}

/// Each record of a decoded object index names an entry of the type table
/// and carries that entry and its class id.
pub proof fn objects_are_typed(
    data: Seq<u8>,
    endian: Endianness,
    header: AssetHeader,
    types: Seq<SerializedTypeView>,
    pos: nat,
    n: nat,
)
    ensures
        wire_repeat(object_at(data, endian, header, types), pos, n) matches Ok((objects, _))
            ==> objects.len() == n && forall|i: int|
            0 <= i < objects.len() ==> {
                let o = #[trigger] objects[i];
                &&& 0 <= o.type_id < types.len()
                &&& o.serialized_type == types[o.type_id as int]
                &&& o.class_id == types[o.type_id as int].class_id
            },
    decreases n,
{
    if n > 0 {
        objects_are_typed(data, endian, header, types, pos, (n - 1) as nat);
    }
}

/// In a decoded directory every object's type index names an entry of the
/// metadata's type table, and the object's class id is that entry's.
pub proof fn directory_is_typed(data: Seq<u8>, pos: nat)
    ensures
        wire_asset_info(data, pos) matches Ok((info, _)) ==> info.objects_typed(),
{
    if let Ok((header, p1)) = wire_header(data, pos) {
        if let Ok((metadata, p2)) = wire_metadata(data, header.endianness, header.version, p1) {
            if let Ok((n, p3)) = wire_i32(data, header.endianness, p2) {
                objects_are_typed(data, header.endianness, header, metadata.types, p3, count_of(n));
            }
        }
    }
}

impl AssetReader {
    /// Decodes the header. The header is read big-endian, and the reader is
    /// left reading big-endian: the file's byte order is in the result.
    pub fn read_header(&mut self) -> (r: Result<AssetHeader, AssetReaderError>)
        ensures
            final(self).bytes() == old(self).bytes(),
            final(self).endian() == Endianness::Big,
            match wire_header(old(self).bytes(), old(self).pos()) {
                Ok((v, p)) => r is Ok && r->Ok_0 == v && final(self).pos() == p,
                Err(e) => r is Err && r->Err_0@ == e,
            },
    {
        proof {
            reveal(wire_skip);
        }
        self.set_endianness(Endianness::Big);
        let metadata_size: u32 = self.read_u32()?;
        let file_size: u32 = self.read_u32()?;
        let version: u32 = self.read_u32()?;
        if version < 17 || version > 22 {
            return Err(AssetReaderError::UnsupportedFileVersion(version));
        }
        let data_offset: u32 = self.read_u32()?;
        let flag: u8 = self.read_u8()?;
        let endianness = if flag == 0 {
            Endianness::Little
        } else {
            Endianness::Big
        };
        self.seek(SeekFrom::Current(3))?;
        if version >= 22 {
            let metadata_size: u32 = self.read_u32()?;
            let file_size: i64 = self.read_i64()?;
            let data_offset: i64 = self.read_i64()?;
            let _unknown: i64 = self.read_i64()?;
            return Ok(
                AssetHeader { metadata_size, file_size, version: version as u8, data_offset, endianness },
            );
        }
        Ok(
            AssetHeader {
                metadata_size,
                file_size: file_size as i64,
                version: version as u8,
                data_offset: data_offset as i64,
                endianness,
            },
        )
    }

    /// Decodes the metadata of a container of the given version.
    #[verifier::loop_isolation(false)]
    pub fn read_metadata(&mut self, version: u8) -> (r: Result<AssetMetadata, AssetReaderError>)
        ensures
            decoded(
                *old(self),
                *final(self),
                r,
                wire_metadata(old(self).bytes(), old(self).endian(), version, old(self).pos()),
            ),
    {
        let ghost data = self.bytes();
        let ghost endian = self.endian();
        let text: String = self.read_null_terminated_string()?;
        let unity_version = match UnityVersion::parse(text.as_str()) {
            Ok(v) => v,
            Err(e) => {
                return Err(AssetReaderError::InvalidVersion(e));
            },
        };
        let target_platform: u32 = self.read_u32()?;
        let enable_type_tree: bool = if version >= 13 {
            self.read_bool()?
        } else {
            true
        };
        let type_count: u32 = self.read_u32()?;
        let ghost start = self.pos();
        let ghost item = type_at(data, endian, version, false, enable_type_tree);
        let mut types: Vec<SerializedType> = Vec::new();
        let mut i: u32 = 0;
        assert(types.deep_view() =~= Seq::<SerializedTypeView>::empty());
        while i < type_count
            invariant
                self.bytes() == data,
                self.endian() == endian,
                i <= type_count,
                wire_repeat(item, start, i as nat) == Ok::<(Seq<SerializedTypeView>, nat), Failure>(
                    (types.deep_view(), self.pos()),
                ),
            decreases type_count - i,
        {
            let ghost before = types.deep_view();
            match self.read_unity_type(false, enable_type_tree, version) {
                Err(e) => {
                    proof {
                        wire_repeat_fail(item, start, (i + 1) as nat, type_count as nat);
                    }
                    return Err(e);
                },
                Ok(t) => {
                    types.push(t);
                    assert(types.deep_view() =~= before.push(t.deep_view()));
                },
            }
            i += 1;
        }
        Ok(AssetMetadata { unity_version, target_platform, enable_type_tree, types })
    }

    /// Decodes one entry of a type table.
    pub fn read_unity_type(&mut self, is_ref_type: bool, enable_type_tree: bool, version: u8) -> (r:
        Result<SerializedType, AssetReaderError>)
        ensures
            decoded(
                *old(self),
                *final(self),
                r,
                wire_serialized_type(
                    old(self).bytes(),
                    old(self).endian(),
                    version,
                    is_ref_type,
                    enable_type_tree,
                    old(self).pos(),
                ),
            ),
    {
        let class_id: i32 = self.read_i32()?;
        let is_stripped_type: bool = if version >= 16 {
            self.read_bool()?
        } else {
            false
        };
        let script_type_index: i16 = if version >= 17 {
            self.read_i16()?
        } else {
            -1
        };
        let mut script_id: Vec<u8> = Vec::new();
        if version >= 13 && ((is_ref_type && script_type_index >= 0) || class_id < 0 || class_id
            == 114) {
            script_id = self.read_bytes(16)?;
        }
        let old_type_hash: Vec<u8> = if version >= 13 {
            self.read_bytes(16)?
        } else {
            Vec::new()
        };
        let head = SerializedType {
            class_id,
            is_stripped_type,
            script_type_index,
            script_id,
            old_type_hash,
            type_dependencies: Vec::new(),
            type_tree: None,
            class_name: String::new(),
            name_space: String::new(),
            asm_name: String::new(),
        };
        if enable_type_tree {
            self.read_type_tail(is_ref_type, version, head)
        } else {
            Ok(head)
        }
    }

    /// Walks over the type tree of an entry, whose nodes are not kept.
    fn skip_type_tree(&mut self, version: u8) -> (r: Result<(), AssetReaderError>)
        ensures
            final(self).bytes() == old(self).bytes(),
            final(self).endian() == old(self).endian(),
            match wire_any_tree(old(self).bytes(), old(self).endian(), version, old(self).pos()) {
                Ok((_, p)) => r is Ok && final(self).pos() == p,
                Err(e) => r is Err && r->Err_0@ == e,
            },
    {
        if version >= 12 || version == 10 {
            let _tree = self.read_type_tree_blob(version)?;
        } else {
            let _tree = self.read_type_tree(version)?;
        }
        Ok(())
    }

    /// Decodes what follows the hashes of a type entry where type trees are
    /// enabled, and completes `head` with it.
    fn read_type_tail(&mut self, is_ref_type: bool, version: u8, head: SerializedType) -> (r:
        Result<SerializedType, AssetReaderError>)
        ensures
            decoded(
                *old(self),
                *final(self),
                r,
                wire_type_tail(
                    old(self).bytes(),
                    old(self).endian(),
                    version,
                    is_ref_type,
                    head.deep_view(),
                    old(self).pos(),
                ),
            ),
    {
        let mut entry = head;
        self.skip_type_tree(version)?;
        if version >= 21 {
            if is_ref_type {
                entry.class_name = self.read_null_terminated_string()?;
                entry.name_space = self.read_null_terminated_string()?;
                entry.asm_name = self.read_null_terminated_string()?;
            } else {
                entry.type_dependencies = self.read_u32_array()?;
            }
        }
        Ok(entry)
    }

    /// Decodes one node of a type tree in the recursive encoding, without
    /// its child count.
    fn read_tree_node(&mut self, version: u8, level: u8) -> (r: Result<
        TypeTreeNode,
        AssetReaderError,
    >)
        ensures
            decoded(
                *old(self),
                *final(self),
                r,
                wire_tree_node(
                    old(self).bytes(),
                    old(self).endian(),
                    version,
                    level,
                    old(self).pos(),
                ),
            ),
    {
        let typ: String = self.read_null_terminated_string()?;
        let name: String = self.read_null_terminated_string()?;
        let byte_size: i32 = self.read_i32()?;
        let variable_count: Option<i32> = if version == 2 {
            Some(self.read_i32()?)
        } else {
            None
        };
        let index: Option<i32> = if version != 3 {
            Some(self.read_i32()?)
        } else {
            None
        };
        let type_flags: i32 = self.read_i32()?;
        let node_version: i32 = self.read_i32()?;
        let meta_flag: Option<i32> = if version != 3 {
            Some(self.read_i32()?)
        } else {
            None
        };
        Ok(
            TypeTreeNode {
                typ: Some(typ),
                name: Some(name),
                byte_size,
                index,
                version: node_version,
                meta_flag,
                level,
                type_str_offset: None,
                name_str_offset: None,
                ref_type_hash: None,
                type_flags,
                variable_count,
            },
        )
    }

    /// Decodes a type tree in the recursive encoding: its nodes in file
    /// order, each with its level.
    #[verifier::loop_isolation(false)]
    pub fn read_type_tree(&mut self, version: u8) -> (r: Result<
        Vec<TypeTreeNode>,
        AssetReaderError,
    >)
        ensures
            decoded(
                *old(self),
                *final(self),
                r,
                wire_type_tree(old(self).bytes(), old(self).endian(), version, old(self).pos()),
            ),
    {
        let ghost data = self.bytes();
        let ghost endian = self.endian();
        let ghost start = self.pos();
        let mut type_tree: Vec<TypeTreeNode> = Vec::new();
        let mut level_stack: Vec<(u8, i32)> = Vec::new();
        level_stack.push((0u8, 1i32));
        assert(level_stack@ =~= seq![(0u8, 1i32)]);
        assert(type_tree.deep_view() =~= Seq::<TypeTreeNodeView>::empty());
        while level_stack.len() > 0
            invariant
                self.bytes() == data,
                self.endian() == endian,
                wire_type_tree(data, endian, version, start) == wire_tree_walk(
                    data,
                    endian,
                    version,
                    self.pos(),
                    level_stack@,
                    type_tree.deep_view(),
                ),
            decreases data.len() - self.pos(),
        {
            let ghost stack = level_stack@;
            let ghost nodes = type_tree.deep_view();
            let ghost at = self.pos();
            let top: (u8, i32) = level_stack.pop().unwrap();
            if top.1 > 1 {
                level_stack.push((top.0, top.1 - 1));
            }
            assert(level_stack@ =~= after_pop(stack));
            proof {
                reveal(wire_i32);
                tree_node_advances(data, endian, version, top.0, at);
            }
            let node: TypeTreeNode = self.read_tree_node(version, top.0)?;
            let children: i32 = self.read_i32()?;
            if children > 0 {
                if top.0 == u8::MAX {
                    return Err(malformed("type tree nested too deep"));
                }
                level_stack.push((top.0 + 1, children));
            }
            type_tree.push(node);
            assert(type_tree.deep_view() =~= nodes.push(node.deep_view()));
        }
        Ok(type_tree)
    }

    /// Decodes one node of a type tree in the blob encoding.
    fn read_blob_node(&mut self, version: u8) -> (r: Result<TypeTreeNode, AssetReaderError>)
        ensures
            decoded(
                *old(self),
                *final(self),
                r,
                wire_blob_node(old(self).bytes(), old(self).endian(), version, old(self).pos()),
            ),
    {
        let node_version: i16 = self.read_i16()?;
        let level: u8 = self.read_u8()?;
        let type_flags: u8 = self.read_u8()?;
        let type_str_offset: u32 = self.read_u32()?;
        let name_str_offset: u32 = self.read_u32()?;
        let byte_size: i32 = self.read_i32()?;
        let index: i32 = self.read_i32()?;
        let meta_flag: i32 = self.read_i32()?;
        let ref_type_hash: Option<u64> = if version >= 19 {
            Some(self.read_u64()?)
        } else {
            None
        };
        Ok(
            TypeTreeNode {
                typ: None,
                name: None,
                byte_size,
                index: Some(index),
                version: node_version as i32,
                meta_flag: Some(meta_flag),
                level,
                type_str_offset: Some(type_str_offset),
                name_str_offset: Some(name_str_offset),
                ref_type_hash,
                type_flags: type_flags as i32,
                variable_count: None,
            },
        )
    }

    /// Decodes a type tree in the blob encoding: its nodes and its string
    /// buffer.
    #[verifier::loop_isolation(false)]
    pub fn read_type_tree_blob(&mut self, version: u8) -> (r: Result<
        (Vec<TypeTreeNode>, Vec<u8>),
        AssetReaderError,
    >)
        ensures
            final(self).bytes() == old(self).bytes(),
            final(self).endian() == old(self).endian(),
            match wire_type_tree_blob(
                old(self).bytes(),
                old(self).endian(),
                version,
                old(self).pos(),
            ) {
                Ok((v, p)) => r is Ok && r->Ok_0.0.deep_view() == v.0 && r->Ok_0.1@ == v.1
                    && final(self).pos() == p,
                Err(e) => r is Err && r->Err_0@ == e,
            },
    {
        let ghost data = self.bytes();
        let ghost endian = self.endian();
        let number_of_nodes: i32 = self.read_i32()?;
        let string_buffer_size: i32 = self.read_i32()?;
        if number_of_nodes < 0 {
            return Err(malformed("negative node count in a type tree"));
        }
        let ghost start = self.pos();
        let ghost item = blob_node_at(data, endian, version);
        let mut type_tree: Vec<TypeTreeNode> = Vec::new();
        let mut i: i32 = 0;
        assert(type_tree.deep_view() =~= Seq::<TypeTreeNodeView>::empty());
        while i < number_of_nodes
            invariant
                self.bytes() == data,
                self.endian() == endian,
                0 <= i <= number_of_nodes,
                wire_repeat(item, start, i as nat) == Ok::<(Seq<TypeTreeNodeView>, nat), Failure>(
                    (type_tree.deep_view(), self.pos()),
                ),
            decreases number_of_nodes - i,
        {
            let ghost before = type_tree.deep_view();
            match self.read_blob_node(version) {
                Err(e) => {
                    proof {
                        wire_repeat_fail(item, start, (i + 1) as nat, number_of_nodes as nat);
                    }
                    return Err(e);
                },
                Ok(node) => {
                    type_tree.push(node);
                    assert(type_tree.deep_view() =~= before.push(node.deep_view()));
                },
            }
            i += 1;
        }
        if string_buffer_size < 0 {
            return Err(malformed("negative string buffer size in a type tree"));
        }
        let strings: Vec<u8> = self.read_bytes(string_buffer_size as usize)?;
        Ok((type_tree, strings))
    }

    /// Decodes the object index against a header and the metadata's type
    /// table.
    #[verifier::loop_isolation(false)]
    pub fn read_objects(&mut self, hdr: &AssetHeader, metadata: &AssetMetadata) -> (r: Result<
        Vec<UnityObject>,
        AssetReaderError,
    >)
        ensures
            decoded(
                *old(self),
                *final(self),
                r,
                wire_objects(
                    old(self).bytes(),
                    old(self).endian(),
                    *hdr,
                    metadata.types.deep_view(),
                    old(self).pos(),
                ),
            ),
    {
        let ghost data = self.bytes();
        let ghost endian = self.endian();
        let n_objects: i32 = self.read_i32()?;
        let ghost start = self.pos();
        let ghost item = object_at(data, endian, *hdr, metadata.types.deep_view());
        let mut objects: Vec<UnityObject> = Vec::new();
        let mut i: i32 = 0;
        assert(objects.deep_view() =~= Seq::<UnityObjectView>::empty());
        while i < n_objects
            invariant
                self.bytes() == data,
                self.endian() == endian,
                0 <= i,
                i as nat <= count_of(n_objects),
                wire_repeat(item, start, i as nat) == Ok::<(Seq<UnityObjectView>, nat), Failure>(
                    (objects.deep_view(), self.pos()),
                ),
            decreases n_objects - i,
        {
            let ghost before = objects.deep_view();
            match self.read_object(hdr, metadata) {
                Err(e) => {
                    proof {
                        wire_repeat_fail(item, start, (i + 1) as nat, count_of(n_objects));
                    }
                    return Err(e);
                },
                Ok(o) => {
                    objects.push(o);
                    assert(objects.deep_view() =~= before.push(o.deep_view()));
                },
            }
            i += 1;
        }
        Ok(objects)
    }

    /// Decodes one record of the object index.
    pub fn read_object(&mut self, hdr: &AssetHeader, metadata: &AssetMetadata) -> (r: Result<
        UnityObject,
        AssetReaderError,
    >)
        ensures
            decoded(
                *old(self),
                *final(self),
                r,
                wire_object(
                    old(self).bytes(),
                    old(self).endian(),
                    *hdr,
                    metadata.types.deep_view(),
                    old(self).pos(),
                ),
            ),
    {
        self.align()?;
        let path_id: i64 = self.read_i64()?;
        let offset: i64 = if hdr.version == 22 {
            self.read_i64()?
        } else {
            let narrow: u32 = self.read_u32()?;
            narrow as i64
        };
        let byte_start: i64 = match offset.checked_add(hdr.data_offset) {
            Some(v) => v,
            None => {
                return Err(malformed("object offset out of range"));
            },
        };
        let byte_size: u32 = self.read_u32()?;
        let type_id: i32 = self.read_i32()?;
        if type_id < 0 || type_id as usize >= metadata.types.len() {
            return Err(AssetReaderError::MissingType(type_id));
        }
        let serialized_type: SerializedType = metadata.types[type_id as usize].clone();
        let class_id: i32 = serialized_type.class_id;
        Ok(
            UnityObject {
                path_id: path_id as i32,
                byte_start,
                byte_size,
                type_id,
                serialized_type,
                class_id,
            },
        )
    }

    /// Decodes one script reference.
    fn read_script_type(&mut self) -> (r: Result<ScriptType, AssetReaderError>)
        ensures
            final(self).bytes() == old(self).bytes(),
            final(self).endian() == old(self).endian(),
            match wire_script_type(old(self).bytes(), old(self).endian(), old(self).pos()) {
                Ok((v, p)) => r is Ok && r->Ok_0 == v && final(self).pos() == p,
                Err(e) => r is Err && r->Err_0@ == e,
            },
    {
        let local_serialized_file_index: i32 = self.read_i32()?;
        self.align()?;
        let id: i64 = self.read_i64()?;
        Ok(ScriptType { local_identifier_in_file: id as i32, local_serialized_file_index })
    }

    /// Decodes the script references.
    #[verifier::loop_isolation(false)]
    pub fn read_script_types(&mut self) -> (r: Result<Vec<ScriptType>, AssetReaderError>)
        ensures
            decoded_seq(
                *old(self),
                *final(self),
                r,
                wire_script_types(old(self).bytes(), old(self).endian(), old(self).pos()),
            ),
    {
        let ghost data = self.bytes();
        let ghost endian = self.endian();
        let n_script_types: i32 = self.read_i32()?;
        let ghost start = self.pos();
        let ghost item = script_type_at(data, endian);
        let mut result: Vec<ScriptType> = Vec::new();
        let mut i: i32 = 0;
        while i < n_script_types
            invariant
                self.bytes() == data,
                self.endian() == endian,
                0 <= i,
                i as nat <= count_of(n_script_types),
                wire_repeat(item, start, i as nat) == Ok::<(Seq<ScriptType>, nat), Failure>(
                    (result@, self.pos()),
                ),
            decreases n_script_types - i,
        {
            match self.read_script_type() {
                Err(e) => {
                    proof {
                        wire_repeat_fail(item, start, (i + 1) as nat, count_of(n_script_types));
                    }
                    return Err(e);
                },
                Ok(t) => {
                    result.push(t);
                },
            }
            i += 1;
        }
        Ok(result)
    }

    /// Decodes one external reference.
    fn read_external(&mut self) -> (r: Result<External, AssetReaderError>)
        ensures
            decoded(
                *old(self),
                *final(self),
                r,
                wire_external(old(self).bytes(), old(self).endian(), old(self).pos()),
            ),
    {
        let _empty: String = self.read_null_terminated_string()?;
        let guid: Vec<u8> = self.read_bytes(16)?;
        let ext_type: i32 = self.read_i32()?;
        let path_name: String = self.read_null_terminated_string()?;
        Ok(External { guid, ext_type, path_name })
    }

    /// Decodes the external references.
    #[verifier::loop_isolation(false)]
    pub fn read_externals(&mut self) -> (r: Result<Vec<External>, AssetReaderError>)
        ensures
            decoded(
                *old(self),
                *final(self),
                r,
                wire_externals(old(self).bytes(), old(self).endian(), old(self).pos()),
            ),
    {
        let ghost data = self.bytes();
        let ghost endian = self.endian();
        let n_externals: i32 = self.read_i32()?;
        let ghost start = self.pos();
        let ghost item = external_at(data, endian);
        let mut result: Vec<External> = Vec::new();
        let mut i: i32 = 0;
        assert(result.deep_view() =~= Seq::<ExternalView>::empty());
        while i < n_externals
            invariant
                self.bytes() == data,
                self.endian() == endian,
                0 <= i,
                i as nat <= count_of(n_externals),
                wire_repeat(item, start, i as nat) == Ok::<(Seq<ExternalView>, nat), Failure>(
                    (result.deep_view(), self.pos()),
                ),
            decreases n_externals - i,
        {
            let ghost before = result.deep_view();
            match self.read_external() {
                Err(e) => {
                    proof {
                        wire_repeat_fail(item, start, (i + 1) as nat, count_of(n_externals));
                    }
                    return Err(e);
                },
                Ok(x) => {
                    result.push(x);
                    assert(result.deep_view() =~= before.push(x.deep_view()));
                },
            }
            i += 1;
        }
        Ok(result)
    }

    /// Decodes the reference types of a container of the given version.
    #[verifier::loop_isolation(false)]
    pub fn read_ref_types(&mut self, metadata: &AssetMetadata, version: u8) -> (r: Result<
        Vec<SerializedType>,
        AssetReaderError,
    >)
        ensures
            decoded(
                *old(self),
                *final(self),
                r,
                wire_ref_types(
                    old(self).bytes(),
                    old(self).endian(),
                    version,
                    metadata.enable_type_tree,
                    old(self).pos(),
                ),
            ),
    {
        let ghost data = self.bytes();
        let ghost endian = self.endian();
        let n_ref_types: i32 = self.read_i32()?;
        let ghost start = self.pos();
        let ghost item = type_at(data, endian, version, true, metadata.enable_type_tree);
        let mut result: Vec<SerializedType> = Vec::new();
        let mut i: i32 = 0;
        assert(result.deep_view() =~= Seq::<SerializedTypeView>::empty());
        while i < n_ref_types
            invariant
                self.bytes() == data,
                self.endian() == endian,
                0 <= i,
                i as nat <= count_of(n_ref_types),
                wire_repeat(item, start, i as nat) == Ok::<(Seq<SerializedTypeView>, nat), Failure>(
                    (result.deep_view(), self.pos()),
                ),
            decreases n_ref_types - i,
        {
            let ghost before = result.deep_view();
            match self.read_unity_type(true, metadata.enable_type_tree, version) {
                Err(e) => {
                    proof {
                        wire_repeat_fail(item, start, (i + 1) as nat, count_of(n_ref_types));
                    }
                    return Err(e);
                },
                Ok(t) => {
                    result.push(t);
                    assert(result.deep_view() =~= before.push(t.deep_view()));
                },
            }
            i += 1;
        }
        Ok(result)
    }

    /// Decodes the whole directory of a container. The header is read
    /// big-endian and everything behind it in the byte order that the header
    /// names, in which the reader is left. Every object of the result names
    /// an entry of the result's type table and carries its class id.
    pub fn read_asset_info(&mut self) -> (r: Result<AssetInfo, AssetReaderError>)
        ensures
            final(self).bytes() == old(self).bytes(),
            match wire_asset_info(old(self).bytes(), old(self).pos()) {
                Ok((v, p)) => r is Ok && r->Ok_0.deep_view() == v && final(self).pos() == p
                    && final(self).endian() == v.header.endianness,
                Err(e) => r is Err && r->Err_0@ == e,
            },
            r is Ok ==> r->Ok_0.deep_view().objects_typed(),
    {
        proof {
            directory_is_typed(self.bytes(), self.pos());
        }
        let header: AssetHeader = self.read_header()?;
        self.set_endianness(header.endianness);
        let metadata: AssetMetadata = self.read_metadata(header.version)?;
        let objects: Vec<UnityObject> = self.read_objects(&header, &metadata)?;
        let script_types: Vec<ScriptType> = self.read_script_types()?;
        let externals: Vec<External> = self.read_externals()?;
        let ref_types: Vec<SerializedType> = if header.version >= 20 {
            self.read_ref_types(&metadata, header.version)?
        } else {
            Vec::new()
        };
        let user_information: String = self.read_null_terminated_string()?;
        assert(header.version < 20 ==> ref_types.deep_view() =~= Seq::<SerializedTypeView>::empty());
        Ok(
            AssetInfo {
                header,
                metadata,
                objects,
                script_types,
                externals,
                ref_types,
                user_information,
            },
        )
    }

    /// Moves the cursor to the first byte of an object. An object with a
    /// negative offset has no such byte: the seek fails and the cursor
    /// stays.
    pub fn seek_to_object(&mut self, obj: &UnityObject) -> (r: Result<u64, AssetReaderError>)
        ensures
            final(self).bytes() == old(self).bytes(),
            final(self).endian() == old(self).endian(),
            obj.byte_start >= 0 ==> r is Ok && r->Ok_0 == obj.byte_start && final(self).pos()
                == obj.byte_start,
            obj.byte_start < 0 ==> r is Err && r->Err_0@ == bad_seek() && final(self).pos() == old(
                self,
            ).pos(),
    {
        if obj.byte_start < 0 {
            return Err(AssetReaderError::IO(IoFault::InvalidSeek));
        }
        self.seek(SeekFrom::Start(obj.byte_start as u64))
    }
}

} // verus!
