//! What a container's directory holds: header, metadata, object index and
//! reference tables, each with the mathematical value it stands for.

use crate::reader::{
    count_of, decoded, wire_items, wire_items_fail, wire_items_in_order, AssetReader,
    AssetReaderError, Deserialize, Layout,
};
use crate::version::UnityVersion;
use crate::wire::{wire_i32, wire_i64, wire_u32, Failure, Wire};
use vstd::prelude::*;

verus! {

/// Byte order of a container's multi-byte fields.
#[derive(Clone, Copy, Debug, PartialEq, Eq, Structural)]
pub enum Endianness {
    Big,
    Little,
}

/// The fixed fields at the start of a container.
#[derive(Clone, Copy, Debug, PartialEq, Eq, Structural)]
pub struct AssetHeader {
    pub metadata_size: u32,
    pub file_size: i64,
    pub version: u8,
    pub data_offset: i64,
    pub endianness: Endianness,
}

/// One node of a type tree, in either of the two encodings.
#[derive(Debug)]
pub struct TypeTreeNode {
    pub typ: Option<String>,
    pub name: Option<String>,
    pub byte_size: i32,
    pub index: Option<i32>,
    pub version: i32,
    pub meta_flag: Option<i32>,
    pub level: u8,
    pub type_str_offset: Option<u32>,
    pub name_str_offset: Option<u32>,
    pub ref_type_hash: Option<u64>,
    pub type_flags: i32,
    pub variable_count: Option<i32>,
}

/// The value of a [`TypeTreeNode`].
pub struct TypeTreeNodeView {
    pub typ: Option<Seq<char>>,
    pub name: Option<Seq<char>>,
    pub byte_size: i32,
    pub index: Option<i32>,
    pub version: i32,
    pub meta_flag: Option<i32>,
    pub level: u8,
    pub type_str_offset: Option<u32>,
    pub name_str_offset: Option<u32>,
    pub ref_type_hash: Option<u64>,
    pub type_flags: i32,
    pub variable_count: Option<i32>,
}

/// The characters of an optional string.
pub open spec fn text(s: Option<String>) -> Option<Seq<char>> {
    match s {
        Some(s) => Some(s@),
        None => None,
    }
}

impl DeepView for TypeTreeNode {
    type V = TypeTreeNodeView;

    open spec fn deep_view(&self) -> TypeTreeNodeView {
        TypeTreeNodeView {
            typ: text(self.typ),
            name: text(self.name),
            byte_size: self.byte_size,
            index: self.index,
            version: self.version,
            meta_flag: self.meta_flag,
            level: self.level,
            type_str_offset: self.type_str_offset,
            name_str_offset: self.name_str_offset,
            ref_type_hash: self.ref_type_hash,
            type_flags: self.type_flags,
            variable_count: self.variable_count,
        }
    }
}

/// A type tree: its nodes in file order and, in the blob encoding, the
/// buffer that the nodes' string offsets point into.
#[derive(Debug)]
pub struct TypeTree {
    pub nodes: Vec<TypeTreeNode>,
    pub strings: Vec<u8>,
}

/// The value of a [`TypeTree`].
pub struct TypeTreeView {
    pub nodes: Seq<TypeTreeNodeView>,
    pub strings: Seq<u8>,
}

impl DeepView for TypeTree {
    type V = TypeTreeView;

    open spec fn deep_view(&self) -> TypeTreeView {
        TypeTreeView { nodes: self.nodes.deep_view(), strings: self.strings@ }
    }
}

/// The deep view of an optional type tree.
pub open spec fn tree_view(t: Option<TypeTree>) -> Option<TypeTreeView> {
    match t {
        Some(t) => Some(t.deep_view()),
        None => None,
    }
}

/// One entry of the metadata type table or of the reference-type table.
#[derive(Debug)]
pub struct SerializedType {
    pub class_id: i32,
    pub is_stripped_type: bool,
    pub script_type_index: i16,
    /// Script GUID: 16 bytes, or empty where the entry carries none.
    pub script_id: Vec<u8>,
    /// Old type hash: 16 bytes, or empty where the entry carries none.
    pub old_type_hash: Vec<u8>,
    pub type_dependencies: Vec<u32>,
    /// Always `None` after decoding: the reader walks over a type tree
    /// without keeping it.
    pub type_tree: Option<TypeTree>,
    pub class_name: String,
    pub name_space: String,
    pub asm_name: String,
}

/// The value of a [`SerializedType`].
pub struct SerializedTypeView {
    pub class_id: i32,
    pub is_stripped_type: bool,
    pub script_type_index: i16,
    pub script_id: Seq<u8>,
    pub old_type_hash: Seq<u8>,
    pub type_dependencies: Seq<u32>,
    pub type_tree: Option<TypeTreeView>,
    pub class_name: Seq<char>,
    pub name_space: Seq<char>,
    pub asm_name: Seq<char>,
}

impl DeepView for SerializedType {
    type V = SerializedTypeView;

    open spec fn deep_view(&self) -> SerializedTypeView {
        SerializedTypeView {
            class_id: self.class_id,
            is_stripped_type: self.is_stripped_type,
            script_type_index: self.script_type_index,
            script_id: self.script_id@,
            old_type_hash: self.old_type_hash@,
            type_dependencies: self.type_dependencies@,
            type_tree: tree_view(self.type_tree),
            class_name: self.class_name@,
            name_space: self.name_space@,
            asm_name: self.asm_name@,
        }
    }
}

/// Engine version, platform and type table of a container.
#[derive(Clone, Debug)]
pub struct AssetMetadata {
    pub unity_version: UnityVersion,
    pub target_platform: u32,
    pub enable_type_tree: bool,
    pub types: Vec<SerializedType>,
}

/// The value of a [`AssetMetadata`].
pub struct AssetMetadataView {
    pub unity_version: UnityVersion,
    pub target_platform: u32,
    pub enable_type_tree: bool,
    pub types: Seq<SerializedTypeView>,
}

impl DeepView for AssetMetadata {
    type V = AssetMetadataView;

    open spec fn deep_view(&self) -> AssetMetadataView {
        AssetMetadataView {
            unity_version: self.unity_version,
            target_platform: self.target_platform,
            enable_type_tree: self.enable_type_tree,
            types: self.types.deep_view(),
        }
    }
}

/// Where one object lies in the container and of what type it is.
#[derive(Clone, Debug)]
pub struct UnityObject {
    pub path_id: i32,
    /// Absolute offset of the object's bytes: the header's data offset is
    /// already added.
    pub byte_start: i64,
    pub byte_size: u32,
    pub type_id: i32,
    pub serialized_type: SerializedType,
    pub class_id: i32,
}

/// The value of a [`UnityObject`].
pub struct UnityObjectView {
    pub path_id: i32,
    pub byte_start: i64,
    pub byte_size: u32,
    pub type_id: i32,
    pub serialized_type: SerializedTypeView,
    pub class_id: i32,
}

impl DeepView for UnityObject {
    type V = UnityObjectView;

    open spec fn deep_view(&self) -> UnityObjectView {
        UnityObjectView {
            path_id: self.path_id,
            byte_start: self.byte_start,
            byte_size: self.byte_size,
            type_id: self.type_id,
            serialized_type: self.serialized_type.deep_view(),
            class_id: self.class_id,
        }
    }
}

/// Reference to a script in this or another container.
#[derive(Clone, Copy, Debug, PartialEq, Eq, Structural)]
pub struct ScriptType {
    pub local_serialized_file_index: i32,
    pub local_identifier_in_file: i32,
}

/// Reference to another container.
#[derive(Clone, Debug)]
pub struct External {
    pub guid: Vec<u8>,
    pub ext_type: i32,
    pub path_name: String,
}

/// The value of a [`External`].
pub struct ExternalView {
    pub guid: Seq<u8>,
    pub ext_type: i32,
    pub path_name: Seq<char>,
}

impl DeepView for External {
    type V = ExternalView;

    open spec fn deep_view(&self) -> ExternalView {
        ExternalView { guid: self.guid@, ext_type: self.ext_type, path_name: self.path_name@ }
    }
}

/// The decoded directory of a container.
#[derive(Clone, Debug)]
pub struct AssetInfo {
    pub header: AssetHeader,
    pub metadata: AssetMetadata,
    pub objects: Vec<UnityObject>,
    pub script_types: Vec<ScriptType>,
    pub externals: Vec<External>,
    pub ref_types: Vec<SerializedType>,
    pub user_information: String,
}

/// The value of a [`AssetInfo`].
pub struct AssetInfoView {
    pub header: AssetHeader,
    pub metadata: AssetMetadataView,
    pub objects: Seq<UnityObjectView>,
    pub script_types: Seq<ScriptType>,
    pub externals: Seq<ExternalView>,
    pub ref_types: Seq<SerializedTypeView>,
    pub user_information: Seq<char>,
}

impl DeepView for AssetInfo {
    type V = AssetInfoView;

    open spec fn deep_view(&self) -> AssetInfoView {
        AssetInfoView {
            header: self.header,
            metadata: self.metadata.deep_view(),
            objects: self.objects.deep_view(),
            script_types: self.script_types@,
            externals: self.externals.deep_view(),
            ref_types: self.ref_types.deep_view(),
            user_information: self.user_information@,
        }
    }
}

impl AssetInfoView {
    /// Every object's type index names an entry of the type table, and the
    /// object carries that entry and its class id.
    pub open spec fn objects_typed(self) -> bool {
        forall|i: int|
            0 <= i < self.objects.len() ==> {
                let o = #[trigger] self.objects[i];
                &&& 0 <= o.type_id < self.metadata.types.len()
                &&& o.serialized_type == self.metadata.types[o.type_id as int]
                &&& o.class_id == self.metadata.types[o.type_id as int].class_id
            }
    }
}

/// Persistent pointer to an object: `file_id` 0 is this container, another
/// value indexes the externals.
#[derive(Clone, Copy, Debug, PartialEq, Eq, Structural)]
pub struct PersistentPtr {
    pub file_id: i32,
    pub path_id: i64,
}

/// Two binary32 numbers, each held as its bit pattern.
#[derive(Clone, Copy, Debug, PartialEq, Eq, Structural)]
pub struct Vec2f {
    pub x: u32,
    pub y: u32,
}

impl DeepView for PersistentPtr {
    type V = PersistentPtr;

    open spec fn deep_view(&self) -> PersistentPtr {
        *self
    }
}

impl Layout for PersistentPtr {
    /// An `i32` file index, then an `i64` path id.
    #[verifier::opaque]
    open spec fn wire(data: Seq<u8>, endian: Endianness, version: UnityVersion, pos: nat) -> Wire<
        PersistentPtr,
    > {
        match wire_i32(data, endian, pos) {
            Err(e) => Err(e),
            Ok((file_id, p)) => match wire_i64(data, endian, p) {
                Err(e) => Err(e),
                Ok((path_id, q)) => Ok((PersistentPtr { file_id, path_id }, q)),
            },
        }
    }
}

impl Deserialize for PersistentPtr {
    fn deserialize(reader: &mut AssetReader, asset: &AssetInfo) -> (r: Result<
        Self,
        AssetReaderError,
    >) {
        proof {
            reveal(<PersistentPtr as Layout>::wire);
        }
        let file_id: i32 = reader.read_i32()?;
        let path_id: i64 = reader.read_i64()?;
        Ok(PersistentPtr { file_id, path_id })
    }
}

impl DeepView for Vec2f {
    type V = Vec2f;

    open spec fn deep_view(&self) -> Vec2f {
        *self
    }
}

impl Layout for Vec2f {
    /// Two binary32 numbers.
    #[verifier::opaque]
    open spec fn wire(data: Seq<u8>, endian: Endianness, version: UnityVersion, pos: nat) -> Wire<
        Vec2f,
    > {
        match wire_u32(data, endian, pos) {
            Err(e) => Err(e),
            Ok((x, p)) => match wire_u32(data, endian, p) {
                Err(e) => Err(e),
                Ok((y, q)) => Ok((Vec2f { x, y }, q)),
            },
        }
    }
}

impl Deserialize for Vec2f {
    fn deserialize(reader: &mut AssetReader, asset: &AssetInfo) -> (r: Result<
        Self,
        AssetReaderError,
    >) {
        proof {
            reveal(<Vec2f as Layout>::wire);
        }
        let x: u32 = reader.read_f32()?;
        let y: u32 = reader.read_f32()?;
        Ok(Vec2f { x, y })
    }
}

/// An ordered map: keys and values in insertion order, one value per key
/// position. Lookup is a linear scan; nothing is hashed or sorted.
#[derive(Debug)]
pub struct OMap<K, V> {
    keys: Vec<K>,
    vals: Vec<V>,
}

/// The pairs of two sequences of equal length, position by position.
pub open spec fn zip_views<K: DeepView, V: DeepView>(keys: Seq<K>, vals: Seq<V>) -> Seq<
    (K::V, V::V),
> {
    Seq::new(keys.len(), |i: int| (keys[i].deep_view(), vals[i].deep_view()))
}

impl<K: DeepView, V: DeepView> DeepView for OMap<K, V> {
    type V = Seq<(K::V, V::V)>;

    /// The map as its sequence of pairs, in insertion order.
    open spec fn deep_view(&self) -> Seq<(K::V, V::V)> {
        zip_views(self.key_seq(), self.val_seq())
    }
}

impl<K, V> OMap<K, V> {
    #[verifier::type_invariant]
    spec fn paired(self) -> bool {
        self.keys@.len() == self.vals@.len()
    }

    /// The keys in insertion order.
    pub closed spec fn key_seq(&self) -> Seq<K> {
        self.keys@
    }

    /// The values, each at the position of its key.
    pub closed spec fn val_seq(&self) -> Seq<V> {
        self.vals@
    }

    /// The empty map.
    pub fn new() -> (r: Self)
        ensures
            r.key_seq() == Seq::<K>::empty(),
            r.val_seq() == Seq::<V>::empty(),
    {
        OMap { keys: Vec::new(), vals: Vec::new() }
    }

    /// The map of `keys[i]` to `vals[i]`, if there are as many values as
    /// keys.
    pub fn from_parts(keys: Vec<K>, vals: Vec<V>) -> (r: Option<Self>)
        ensures
            r is Some <==> keys@.len() == vals@.len(),
            r is Some ==> r->Some_0.key_seq() == keys@ && r->Some_0.val_seq() == vals@,
    {
        if keys.len() == vals.len() {
            Some(OMap { keys, vals })
        } else {
            None
        }
    }

    /// Number of pairs: there are as many keys as values.
    pub fn len(&self) -> (n: usize)
        ensures
            n == self.key_seq().len(),
            n == self.val_seq().len(),
    {
        proof {
            use_type_invariant(self);
        }
        self.keys.len()
    }

    /// The keys in insertion order.
    pub fn keys(&self) -> (r: &Vec<K>)
        ensures
            r@ == self.key_seq(),
            r@.len() == self.val_seq().len(),
    {
        proof {
            use_type_invariant(self);
        }
        &self.keys
    }

    /// The values, each at the position of its key.
    pub fn vals(&self) -> (r: &Vec<V>)
        ensures
            r@ == self.val_seq(),
            r@.len() == self.key_seq().len(),
    {
        proof {
            use_type_invariant(self);
        }
        &self.vals
    }
}

impl<K: Clone, V: Clone> Clone for OMap<K, V> {
    /// A map with a clone of each key and of each value, in the same
    /// order.
    fn clone(&self) -> (r: Self)
        ensures
            r.key_seq().len() == self.key_seq().len(),
            r.val_seq().len() == self.val_seq().len(),
            forall|i: int|
                0 <= i < self.key_seq().len() ==> cloned(self.key_seq()[i], #[trigger] r.key_seq()[i]),
            forall|i: int|
                0 <= i < self.val_seq().len() ==> cloned(self.val_seq()[i], #[trigger] r.val_seq()[i]),
    {
        proof {
            use_type_invariant(self);
        }
        OMap { keys: self.keys.clone(), vals: self.vals.clone() }
    }
}

/// Position of the first key at or after `from` whose text is `name`.
pub open spec fn position_of(keys: Seq<String>, name: Seq<char>, from: int) -> Option<int>
    decreases keys.len() - from,
{
    if from < 0 || from >= keys.len() {
        None
    } else if keys[from]@ == name {
        Some(from)
    } else {
        position_of(keys, name, from + 1)
    }
}

impl<V: Copy> OMap<String, V> {
    /// The value found under `name`: that of the first key equal to it.
    pub open spec fn lookup(&self, name: Seq<char>) -> Option<V> {
        match position_of(self.key_seq(), name, 0) {
            Some(i) => Some(self.val_seq()[i]),
            None => None,
        }
    }

    /// The value of the first key equal to `name`, if there is one.
    pub fn find(&self, name: String) -> (r: Option<V>)
        ensures
            r == self.lookup(name@),
    {
        proof {
            use_type_invariant(self);
        }
        let mut i: usize = 0;
        while i < self.keys.len()
            invariant
                i <= self.keys@.len(),
                self.keys@.len() == self.vals@.len(),
                position_of(self.keys@, name@, 0) == position_of(self.keys@, name@, i as int),
            decreases self.keys.len() - i,
        {
            if self.keys[i] == name {
                return Some(self.vals[i]);
            }
            i += 1;
        }
        None
    }
}

impl<K: Layout, V: Layout> Layout for (K, V) {
    /// A key, then its value.
    open spec fn wire(data: Seq<u8>, endian: Endianness, version: UnityVersion, pos: nat) -> Wire<
        (K::V, V::V),
    > {
        match K::wire(data, endian, version, pos) {
            Err(e) => Err(e),
            Ok((k, p)) => match V::wire(data, endian, version, p) {
                Err(e) => Err(e),
                Ok((v, q)) => Ok(((k, v), q)),
            },
        }
    }
}

impl<K: Deserialize, V: Deserialize> Deserialize for (K, V) {
    fn deserialize(reader: &mut AssetReader, asset: &AssetInfo) -> (r: Result<
        Self,
        AssetReaderError,
    >) {
        let k: K = K::deserialize(reader, asset)?;
        let v: V = V::deserialize(reader, asset)?;
        Ok((k, v))
    }
}

impl<K: Layout, V: Layout> Layout for OMap<K, V> {
    /// An `i32` count, then that many pairs of key and value. No alignment
    /// follows.
    open spec fn wire(data: Seq<u8>, endian: Endianness, version: UnityVersion, pos: nat) -> Wire<
        Seq<(K::V, V::V)>,
    > {
        match wire_i32(data, endian, pos) {
            Err(e) => Err(e),
            Ok((n, p)) => wire_items::<(K, V)>(data, endian, version, p, count_of(n)),
        }
    }
}

/// A decoded ordered map keeps file order: its pair `i` is the key and the
/// value that stand on the wire behind the `i` pairs before it.
pub proof fn map_in_file_order<K: Layout, V: Layout>(
    data: Seq<u8>,
    endian: Endianness,
    version: UnityVersion,
    pos: nat,
    i: nat,
)
    requires
        <OMap<K, V>>::wire(data, endian, version, pos) matches Ok((pairs, _)) && i < pairs.len(),
    ensures
        wire_i32(data, endian, pos) matches Ok((_, start)) && (wire_items::<(K, V)>(
            data,
            endian,
            version,
            start,
            i,
        ) matches Ok((before, p)) && before == <OMap<K, V>>::wire(
            data,
            endian,
            version,
            pos,
        )->Ok_0.0.take(i as int) && (<(K, V)>::wire(data, endian, version, p) matches Ok((pair, _))
            && pair == <OMap<K, V>>::wire(data, endian, version, pos)->Ok_0.0[i as int])),
{
    let (n, start) = wire_i32(data, endian, pos)->Ok_0;
    crate::reader::wire_items_len::<(K, V)>(data, endian, version, start, count_of(n));
    wire_items_in_order::<(K, V)>(data, endian, version, start, count_of(n), i);
}

impl<K: Deserialize, V: Deserialize> Deserialize for OMap<K, V> {
    fn deserialize(reader: &mut AssetReader, asset: &AssetInfo) -> (r: Result<
        Self,
        AssetReaderError,
    >) {
        let ghost data = reader.bytes();
        let ghost endian = reader.endian();
        let ghost version = asset.metadata.unity_version;
        let n: i32 = reader.read_i32()?;
        let ghost start = reader.pos();
        let mut keys: Vec<K> = Vec::new();
        let mut vals: Vec<V> = Vec::new();
        let mut i: i32 = 0;
        assert(zip_views(keys@, vals@) =~= Seq::<(K::V, V::V)>::empty());
        while i < n
            invariant
                reader.bytes() == data,
                reader.endian() == endian,
                version == asset.metadata.unity_version,
                data == old(reader).bytes(),
                endian == old(reader).endian(),
                wire_i32(data, endian, old(reader).pos()) == Ok::<(i32, nat), Failure>((n, start)),
                0 <= i,
                i as nat <= count_of(n),
                keys@.len() == vals@.len(),
                wire_items::<(K, V)>(data, endian, version, start, i as nat) == Ok::<
                    (Seq<(K::V, V::V)>, nat),
                    Failure,
                >((zip_views(keys@, vals@), reader.pos())),
            decreases n - i,
        {
            let ghost before = zip_views(keys@, vals@);
            match <(K, V)>::deserialize(reader, asset) {
                Err(e) => {
                    proof {
                        wire_items_fail::<(K, V)>(
                            data,
                            endian,
                            version,
                            start,
                            (i + 1) as nat,
                            count_of(n),
                        );
                    }
                    return Err(e);
                },
                Ok(pair) => {
                    let ghost pv = pair.deep_view();
                    let (k, v) = pair;
                    keys.push(k);
                    vals.push(v);
                    assert(zip_views(keys@, vals@) =~= before.push(pv));
                },
            }
            i += 1;
        }
        Ok(OMap { keys, vals })
    }
}

/// A copy of `bytes`.
pub fn copy_bytes(bytes: &Vec<u8>) -> (r: Vec<u8>)
    ensures
        r@ == bytes@,
{
    let mut out: Vec<u8> = Vec::new();
    let mut i: usize = 0;
    while i < bytes.len()
        invariant
            i <= bytes.len(),
            out@ == bytes@.take(i as int),
        decreases bytes.len() - i,
    {
        out.push(bytes[i]);
        i += 1;
        assert(out@ =~= bytes@.take(i as int));
    }
    assert(bytes@.take(i as int) =~= bytes@);
    out
}

/// A copy of an optional string.
pub fn copy_text(s: &Option<String>) -> (r: Option<String>)
    ensures
        text(r) == text(*s),
{
    match s {
        Some(s) => Some(s.clone()),
        None => None,
    }
}

impl Clone for TypeTreeNode {
    fn clone(&self) -> (r: Self)
        ensures
            r.deep_view() == self.deep_view(),
    {
        TypeTreeNode {
            typ: copy_text(&self.typ),
            name: copy_text(&self.name),
            byte_size: self.byte_size,
            index: self.index,
            version: self.version,
            meta_flag: self.meta_flag,
            level: self.level,
            type_str_offset: self.type_str_offset,
            name_str_offset: self.name_str_offset,
            ref_type_hash: self.ref_type_hash,
            type_flags: self.type_flags,
            variable_count: self.variable_count,
        }
    }
}

impl Clone for TypeTree {
    fn clone(&self) -> (r: Self)
        ensures
            r.deep_view() == self.deep_view(),
    {
        let mut nodes: Vec<TypeTreeNode> = Vec::new();
        let mut i: usize = 0;
        while i < self.nodes.len()
            invariant
                i <= self.nodes.len(),
                nodes.deep_view() == self.nodes.deep_view().take(i as int),
            decreases self.nodes.len() - i,
        {
            let ghost before = nodes.deep_view();
            let node = self.nodes[i].clone();
            nodes.push(node);
            i += 1;
            assert(nodes.deep_view() =~= before.push(node.deep_view()));
            assert(nodes.deep_view() =~= self.nodes.deep_view().take(i as int));
        }
        assert(self.nodes.deep_view().take(i as int) =~= self.nodes.deep_view());
        TypeTree { nodes, strings: copy_bytes(&self.strings) }
    }
}

impl Clone for SerializedType {
    fn clone(&self) -> (r: Self)
        ensures
            r.deep_view() == self.deep_view(),
    {
        let mut type_dependencies: Vec<u32> = Vec::new();
        let mut i: usize = 0;
        while i < self.type_dependencies.len()
            invariant
                i <= self.type_dependencies.len(),
                type_dependencies@ == self.type_dependencies@.take(i as int),
            decreases self.type_dependencies.len() - i,
        {
            type_dependencies.push(self.type_dependencies[i]);
            i += 1;
            assert(type_dependencies@ =~= self.type_dependencies@.take(i as int));
        }
        assert(self.type_dependencies@.take(i as int) =~= self.type_dependencies@);
        let type_tree: Option<TypeTree> = match &self.type_tree {
            Some(t) => Some(t.clone()),
            None => None,
        };
        SerializedType {
            class_id: self.class_id,
            is_stripped_type: self.is_stripped_type,
            script_type_index: self.script_type_index,
            script_id: copy_bytes(&self.script_id),
            old_type_hash: copy_bytes(&self.old_type_hash),
            type_dependencies,
            type_tree,
            class_name: self.class_name.clone(),
            name_space: self.name_space.clone(),
            asm_name: self.asm_name.clone(),
        }
    }
}

} // verus!
