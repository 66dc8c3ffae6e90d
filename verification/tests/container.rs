use std::collections::HashMap;
use unity_assets::asset::{AssetHeader, AssetInfo, AssetMetadata, Endianness, SerializedType, UnityObject};
use unity_assets::reader::{AssetReader, AssetReaderError, SeekFrom};
use unity_assets::version::{UnityVersion, VersionParseError};
use unity_assets::wire::IoFault;

/// Writes the fields of a container in one byte order.
struct Out {
    bytes: Vec<u8>,
    little: bool,
}

impl Out {
    fn new(little: bool) -> Out {
        Out { bytes: Vec::new(), little }
    }

    fn u8(&mut self, v: u8) {
        self.bytes.push(v);
    }

    fn put(&mut self, le: &[u8]) {
        if self.little {
            self.bytes.extend_from_slice(le);
        } else {
            self.bytes.extend(le.iter().rev());
        }
    }

    fn i16(&mut self, v: i16) {
        self.put(&v.to_le_bytes());
    }

    fn u32(&mut self, v: u32) {
        self.put(&v.to_le_bytes());
    }

    fn i32(&mut self, v: i32) {
        self.put(&v.to_le_bytes());
    }

    fn i64(&mut self, v: i64) {
        self.put(&v.to_le_bytes());
    }

    fn u64(&mut self, v: u64) {
        self.put(&v.to_le_bytes());
    }

    fn raw(&mut self, v: &[u8]) {
        self.bytes.extend_from_slice(v);
    }

    fn cstr(&mut self, s: &str) {
        self.bytes.extend_from_slice(s.as_bytes());
        self.bytes.push(0);
    }

    fn align(&mut self) {
        while self.bytes.len() % 4 != 0 {
            self.bytes.push(0);
        }
    }
}

/// The header of a container; its fields are big-endian whatever `little`.
fn header(version: u32, metadata_size: u32, file_size: u64, data_offset: u64, little: bool) -> Vec<u8> {
    let mut o = Out::new(false);
    if version >= 22 {
        o.u32(0);
        o.u32(0);
        o.u32(version);
        o.u32(0);
    } else {
        o.u32(metadata_size);
        o.u32(file_size as u32);
        o.u32(version);
        o.u32(data_offset as u32);
    }
    o.u8(if little { 0 } else { 1 });
    o.raw(&[0, 0, 0]);
    if version >= 22 {
        o.u32(metadata_size);
        o.i64(file_size as i64);
        o.i64(data_offset as i64);
        o.i64(0);
    }
    o.bytes
}

/// A type entry of a container without type trees.
fn plain_type(o: &mut Out, class_id: i32, script_type_index: i16, is_ref: bool) {
    o.i32(class_id);
    o.u8(0);
    o.i16(script_type_index);
    if (is_ref && script_type_index >= 0) || class_id < 0 || class_id == 114 {
        o.raw(&[0xaa; 16]);
    }
    o.raw(&[0xbb; 16]);
}

const CLASSES: [(i32, usize); 8] = [(150, 1), (21, 10), (28, 12), (128, 9), (213, 1), (1, 1), (4, 1), (114, 21)];

/// A container in the shape of the shared assets of a 2019.2 player:
/// 8 types, 56 objects, no script types, 2 externals.
fn shared_assets(version: u32, little: bool) -> Vec<u8> {
    let mut bytes = header(version, 2493, 17649856, 4096, little);
    let mut o = Out::new(little);
    o.cstr("2019.2.17f1");
    o.u32(19);
    o.u8(0);
    o.u32(CLASSES.len() as u32);
    for (class_id, _) in CLASSES.iter() {
        plain_type(&mut o, *class_id, if *class_id == 114 { 0 } else { -1 }, false);
    }
    bytes.append(&mut o.bytes);
    o = Out::new(little);
    o.i32(56);
    let mut path_id = 1i64;
    let mut offset = 0u32;
    for (type_id, (_, count)) in CLASSES.iter().enumerate() {
        for _ in 0..*count {
            // records are aligned relative to the start of the file
            while (bytes.len() + o.bytes.len()) % 4 != 0 {
                o.u8(0);
            }
            o.i64(path_id);
            if version >= 22 {
                o.i64(offset as i64);
            } else {
                o.u32(offset);
            }
            o.u32(100 + path_id as u32);
            o.i32(type_id as i32);
            path_id += 1;
            offset += 128;
        }
    }
    // script types
    o.i32(0);
    // externals
    o.i32(2);
    o.cstr("");
    o.raw(&[0x11; 16]);
    o.i32(0);
    o.cstr("globalgamemanagers.assets");
    o.cstr("");
    o.raw(&[0x22; 16]);
    o.i32(0);
    o.cstr("library/unity default resources");
    // reference types
    if version >= 20 {
        o.i32(0);
    }
    // user information
    o.cstr("");
    bytes.append(&mut o.bytes);
    bytes
}

/// The header of a version 17 container with the version field replaced.
fn header_with_version(version: u32) -> Vec<u8> {
    let mut bytes = header(17, 1, 2, 3, true);
    bytes[8..12].copy_from_slice(&version.to_be_bytes());
    bytes
}

fn read_test_asset() -> AssetReader {
    AssetReader::new(shared_assets(20, true))
}

fn is_eof<T>(r: Result<T, AssetReaderError>) -> bool {
    matches!(r, Err(AssetReaderError::IO(IoFault::UnexpectedEof)))
}

#[test]
fn test_header() {
    let mut reader = read_test_asset();
    let hdr = reader.read_header().unwrap();
    assert_eq!(hdr.metadata_size, 2493);
    assert_eq!(hdr.file_size, 17649856);
    assert_eq!(hdr.version, 20);
    assert_eq!(hdr.data_offset, 4096);
}

#[test]
fn test_metadata() {
    let mut reader = read_test_asset();
    let hdr = reader.read_header().unwrap();
    reader.set_endianness(hdr.endianness);
    let metadata = reader.read_metadata(hdr.version).unwrap();
    assert_eq!(metadata.unity_version, UnityVersion::try_from("2019.2.17f1").unwrap());
}

#[test]
fn test_objects() {
    let mut reader = read_test_asset();
    let hdr = reader.read_header().unwrap();
    reader.set_endianness(hdr.endianness);
    let metadata = reader.read_metadata(hdr.version).unwrap();
    let objects = reader.read_objects(&hdr, &metadata).unwrap();
    assert_eq!(objects.len(), 56);

    // count how many objects there are per type
    let mut stats: HashMap<i32, usize> = HashMap::new();
    for obj in objects {
        *stats.entry(obj.class_id).or_insert(0) += 1;
    }
    assert_eq!(stats.get(&150), Some(&1)); // PreloadData
    assert_eq!(stats.get(&21), Some(&10)); // Material
    assert_eq!(stats.get(&28), Some(&12)); // Texture2D
    assert_eq!(stats.get(&128), Some(&9)); // Font
    assert_eq!(stats.get(&213), Some(&1)); // Sprite
    assert_eq!(stats.get(&1), Some(&1)); // GameObject
    assert_eq!(stats.get(&4), Some(&1)); // Transform
    assert_eq!(stats.get(&114), Some(&21)); // MonoBehaviour
}

#[test]
fn test_script_types() {
    let mut reader = read_test_asset();
    let hdr = reader.read_header().unwrap();
    reader.set_endianness(hdr.endianness);
    let metadata = reader.read_metadata(hdr.version).unwrap();
    let _ = reader.read_objects(&hdr, &metadata).unwrap();
    let _script_types = reader.read_script_types().unwrap();
}

#[test]
fn test_externals() {
    let mut reader = read_test_asset();
    let hdr = reader.read_header().unwrap();
    reader.set_endianness(hdr.endianness);
    let metadata = reader.read_metadata(hdr.version).unwrap();
    let _ = reader.read_objects(&hdr, &metadata).unwrap();
    let _script_types = reader.read_script_types().unwrap();
    let externals = reader.read_externals().unwrap();
    assert_eq!(externals.len(), 2);
    assert_eq!(&externals[0].path_name, "globalgamemanagers.assets");
    assert_eq!(&externals[1].path_name, "library/unity default resources");
}

#[test]
fn test_ref_types() {
    let mut reader = read_test_asset();
    let hdr = reader.read_header().unwrap();
    reader.set_endianness(hdr.endianness);
    let metadata = reader.read_metadata(hdr.version).unwrap();
    let _ = reader.read_objects(&hdr, &metadata).unwrap();
    let _ = reader.read_script_types().unwrap();
    let _ = reader.read_externals().unwrap();
    let ref_types = reader.read_ref_types(&metadata, hdr.version).unwrap();
    assert_eq!(ref_types.len(), 0);
}

#[test]
fn test_all_together() {
    let mut reader = read_test_asset();
    let _asset = reader.read_asset_info().unwrap();
}

#[test]
fn test_v22() {
    let data = shared_assets(22, true);
    let mut reader = AssetReader::new(data);
    let _asset = reader.read_asset_info().unwrap();
}

#[test]
fn the_directory_holds_what_the_file_holds() {
    let data = shared_assets(20, true);
    let len = data.len() as u64;
    let mut reader = AssetReader::new(data);
    let asset = reader.read_asset_info().unwrap();
    assert_eq!(reader.current_pos().unwrap(), len);
    assert_eq!(
        asset.header,
        AssetHeader { metadata_size: 2493, file_size: 17649856, version: 20, data_offset: 4096, endianness: Endianness::Little }
    );
    assert_eq!(asset.metadata.target_platform, 19);
    assert_eq!(asset.metadata.enable_type_tree, false);
    assert_eq!(asset.metadata.types.len(), 8);
    assert_eq!(asset.metadata.types[1].class_id, 21);
    assert_eq!(asset.metadata.types[1].script_type_index, -1);
    assert_eq!(asset.metadata.types[1].script_id, Vec::<u8>::new());
    assert_eq!(asset.metadata.types[1].old_type_hash, vec![0xbb; 16]);
    assert_eq!(asset.metadata.types[7].class_id, 114);
    assert_eq!(asset.metadata.types[7].script_type_index, 0);
    assert_eq!(asset.metadata.types[7].script_id, vec![0xaa; 16]);
    assert!(asset.metadata.types[7].type_tree.is_none());
    assert_eq!(asset.objects.len(), 56);
    assert_eq!(asset.objects[0].path_id, 1);
    assert_eq!(asset.objects[0].byte_start, 4096);
    assert_eq!(asset.objects[0].byte_size, 101);
    assert_eq!(asset.objects[1].byte_start, 4096 + 128);
    assert_eq!(asset.objects[55].path_id, 56);
    assert_eq!(asset.objects[55].type_id, 7);
    assert_eq!(asset.script_types.len(), 0);
    assert_eq!(asset.externals.len(), 2);
    assert_eq!(asset.externals[0].guid, vec![0x11; 16]);
    assert_eq!(asset.externals[1].guid, vec![0x22; 16]);
    assert_eq!(asset.ref_types.len(), 0);
    assert_eq!(asset.user_information, "");
}

fn check_objects_typed(asset: &AssetInfo) {
    for o in asset.objects.iter() {
        assert!(o.type_id >= 0);
        let t = &asset.metadata.types[o.type_id as usize];
        assert_eq!(o.class_id, t.class_id);
        assert_eq!(o.serialized_type.class_id, t.class_id);
        assert_eq!(o.serialized_type.script_id, t.script_id);
        assert_eq!(o.serialized_type.old_type_hash, t.old_type_hash);
    }
}

#[test]
fn every_object_names_a_type_of_the_table() {
    for version in 17..=22 {
        for little in [true, false] {
            let mut reader = AssetReader::new(shared_assets(version, little));
            let asset = reader.read_asset_info().unwrap();
            assert_eq!(asset.header.version as u32, version);
            check_objects_typed(&asset);
        }
    }
}

#[test]
fn both_byte_orders_decode_to_the_same_directory() {
    for version in [20, 22] {
        let mut le = AssetReader::new(shared_assets(version, true));
        let mut be = AssetReader::new(shared_assets(version, false));
        let a = le.read_asset_info().unwrap();
        let b = be.read_asset_info().unwrap();
        assert_eq!(a.header.endianness, Endianness::Little);
        assert_eq!(b.header.endianness, Endianness::Big);
        assert_eq!(a.header.metadata_size, b.header.metadata_size);
        assert_eq!(a.header.file_size, b.header.file_size);
        assert_eq!(a.header.data_offset, b.header.data_offset);
        assert_eq!(format!("{:?}", a.metadata), format!("{:?}", b.metadata));
        assert_eq!(format!("{:?}", a.objects), format!("{:?}", b.objects));
        assert_eq!(format!("{:?}", a.script_types), format!("{:?}", b.script_types));
        assert_eq!(format!("{:?}", a.externals), format!("{:?}", b.externals));
        assert_eq!(format!("{:?}", a.ref_types), format!("{:?}", b.ref_types));
        assert_eq!(le.current_pos().unwrap(), be.current_pos().unwrap());
    }
}

#[test]
fn the_header_is_big_endian_and_sets_no_byte_order() {
    let mut reader = AssetReader::new(shared_assets(20, true));
    reader.set_endianness(Endianness::Little);
    let hdr = reader.read_header().unwrap();
    assert_eq!(hdr.version, 20);
    assert_eq!(hdr.endianness, Endianness::Little);
    assert_eq!(reader.current_pos().unwrap(), 20);
    // the reader is left big-endian: the version string's length is not at stake,
    // so read the platform after it to see the order
    let _ = reader.read_null_terminated_string().unwrap();
    assert_eq!(reader.read_u32().unwrap(), 19u32.swap_bytes());
}

#[test]
fn the_wide_header_of_version_22() {
    let mut reader = AssetReader::new(header(22, 77, 0x1_0000_0001, 0x2_0000_0000, true));
    let hdr = reader.read_header().unwrap();
    assert_eq!(
        hdr,
        AssetHeader { metadata_size: 77, file_size: 0x1_0000_0001, version: 22, data_offset: 0x2_0000_0000, endianness: Endianness::Little }
    );
    assert_eq!(reader.current_pos().unwrap(), 48);
    let mut short = header(22, 77, 1, 2, false);
    short.truncate(47);
    assert!(is_eof(AssetReader::new(short).read_header()));
}

#[test]
fn the_byte_order_flag() {
    let mut bytes = header(17, 1, 2, 3, true);
    assert_eq!(AssetReader::new(bytes.clone()).read_header().unwrap().endianness, Endianness::Little);
    bytes[16] = 1;
    assert_eq!(AssetReader::new(bytes.clone()).read_header().unwrap().endianness, Endianness::Big);
    bytes[16] = 0xff;
    assert_eq!(AssetReader::new(bytes.clone()).read_header().unwrap().endianness, Endianness::Big);
}

#[test]
fn rejects_unsupported_container_versions() {
    for version in [0u32, 9, 16, 23, 0x1400_0000] {
        match AssetReader::new(header_with_version(version)).read_header() {
            Err(AssetReaderError::UnsupportedFileVersion(v)) => assert_eq!(v, version),
            other => panic!("{:?}", other),
        }
        let mut reader = AssetReader::new(header_with_version(version));
        assert!(matches!(reader.read_asset_info(), Err(AssetReaderError::UnsupportedFileVersion(_))));
    }
    for version in 17..=22 {
        assert!(AssetReader::new(header(version, 1, 2, 3, true)).read_header().is_ok());
    }
}

#[test]
fn the_header_fails_on_short_input() {
    let full = header(20, 1, 2, 3, true);
    for n in 0..17 {
        assert!(is_eof(AssetReader::new(full[..n].to_vec()).read_header()));
    }
    // the three reserved bytes are skipped, not read
    let hdr = AssetReader::new(full[..17].to_vec()).read_header().unwrap();
    assert_eq!(hdr.version, 20);
}

#[test]
fn rejects_an_engine_version_that_does_not_parse() {
    let mut o = Out::new(true);
    o.cstr("twenty");
    o.u32(19);
    let mut reader = AssetReader::new(o.bytes);
    reader.set_endianness(Endianness::Little);
    match reader.read_metadata(20) {
        Err(AssetReaderError::InvalidVersion(e)) => assert_eq!(e, VersionParseError::MissingNumber),
        other => panic!("{:?}", other),
    }
}

#[test]
fn rejects_an_object_of_an_unknown_type() {
    for type_id in [8i32, -1, i32::MAX] {
        let hdr = AssetHeader { metadata_size: 0, file_size: 0, version: 20, data_offset: 16, endianness: Endianness::Little };
        let mut types = Out::new(true);
        types.cstr("2019.2.17f1");
        types.u32(19);
        types.u8(0);
        types.u32(8);
        for (class_id, _) in CLASSES.iter() {
            plain_type(&mut types, *class_id, -1, false);
        }
        let mut reader = AssetReader::new(types.bytes);
        reader.set_endianness(Endianness::Little);
        let metadata = reader.read_metadata(20).unwrap();
        let mut o = Out::new(true);
        o.i64(5);
        o.u32(0);
        o.u32(1);
        o.i32(type_id);
        let mut reader = AssetReader::new(o.bytes);
        reader.set_endianness(Endianness::Little);
        match reader.read_object(&hdr, &metadata) {
            Err(AssetReaderError::MissingType(id)) => assert_eq!(id, type_id),
            other => panic!("{:?}", other),
        }
    }
}

fn one_type_metadata() -> AssetMetadata {
    AssetMetadata {
        unity_version: UnityVersion::new(2019, 2, 17),
        target_platform: 0,
        enable_type_tree: false,
        types: vec![SerializedType {
            class_id: 21,
            is_stripped_type: false,
            script_type_index: -1,
            script_id: Vec::new(),
            old_type_hash: vec![7; 16],
            type_dependencies: vec![1, 2, 3],
            type_tree: None,
            class_name: "C".to_string(),
            name_space: "N".to_string(),
            asm_name: "A".to_string(),
        }],
    }
}

#[test]
fn an_object_record_starts_aligned_and_narrows_its_path_id() {
    let hdr = AssetHeader { metadata_size: 0, file_size: 0, version: 21, data_offset: 1000, endianness: Endianness::Big };
    let metadata = one_type_metadata();
    let mut o = Out::new(false);
    o.u8(0xee);
    o.align();
    o.i64(0x1_0000_0007);
    o.u32(24);
    o.u32(99);
    o.i32(0);
    let mut reader = AssetReader::new(o.bytes);
    reader.seek(SeekFrom::Start(1)).unwrap();
    let obj: UnityObject = reader.read_object(&hdr, &metadata).unwrap();
    assert_eq!(obj.path_id, 7);
    assert_eq!(obj.byte_start, 1024);
    assert_eq!(obj.byte_size, 99);
    assert_eq!(obj.type_id, 0);
    assert_eq!(obj.class_id, 21);
    assert_eq!(obj.serialized_type.old_type_hash, vec![7; 16]);
    assert_eq!(obj.serialized_type.type_dependencies, vec![1, 2, 3]);
    assert_eq!(obj.serialized_type.class_name, "C");
    assert_eq!(obj.serialized_type.name_space, "N");
    assert_eq!(obj.serialized_type.asm_name, "A");
    assert_eq!(reader.current_pos().unwrap(), 24);
}

#[test]
fn an_object_offset_is_wide_in_version_22() {
    let hdr = AssetHeader { metadata_size: 0, file_size: 0, version: 22, data_offset: 0x10, endianness: Endianness::Little };
    let metadata = one_type_metadata();
    let mut o = Out::new(true);
    o.i64(-2);
    o.i64(0x3_0000_0000);
    o.u32(1);
    o.i32(0);
    let mut reader = AssetReader::new(o.bytes);
    reader.set_endianness(Endianness::Little);
    let obj = reader.read_object(&hdr, &metadata).unwrap();
    assert_eq!(obj.path_id, -2);
    assert_eq!(obj.byte_start, 0x3_0000_0010);
}

#[test]
fn rejects_an_object_offset_that_overflows() {
    let hdr = AssetHeader { metadata_size: 0, file_size: 0, version: 22, data_offset: i64::MAX, endianness: Endianness::Little };
    let metadata = one_type_metadata();
    let mut o = Out::new(true);
    o.i64(1);
    o.i64(1);
    o.u32(1);
    o.i32(0);
    let mut reader = AssetReader::new(o.bytes);
    reader.set_endianness(Endianness::Little);
    match reader.read_object(&hdr, &metadata) {
        Err(AssetReaderError::DeserializationError(m)) => assert_eq!(m, "object offset out of range"),
        other => panic!("{:?}", other),
    }
}

#[test]
fn script_types_align_before_the_identifier() {
    let mut o = Out::new(true);
    o.i32(2);
    o.i32(3);
    o.i64(0x2_0000_0009);
    o.i32(-4);
    o.i64(-1);
    let mut reader = AssetReader::new(o.bytes);
    reader.set_endianness(Endianness::Little);
    let s = reader.read_script_types().unwrap();
    assert_eq!(s.len(), 2);
    assert_eq!(s[0].local_serialized_file_index, 3);
    assert_eq!(s[0].local_identifier_in_file, 9);
    assert_eq!(s[1].local_serialized_file_index, -4);
    assert_eq!(s[1].local_identifier_in_file, -1);

    // a count at an odd position: the identifier follows padding
    let mut o = Out::new(false);
    o.raw(&[0, 0]);
    o.i32(1);
    o.i32(3);
    o.raw(&[0, 0]);
    o.i64(5);
    let mut reader = AssetReader::new(o.bytes);
    reader.seek(SeekFrom::Start(2)).unwrap();
    let s = reader.read_script_types().unwrap();
    assert_eq!(s[0].local_identifier_in_file, 5);
    assert_eq!(reader.current_pos().unwrap(), 20);
}

#[test]
fn a_type_entry_follows_the_container_version() {
    // version 15: no stripped flag, no script type index
    let mut o = Out::new(true);
    o.i32(-7);
    o.raw(&[1; 16]);
    o.raw(&[2; 16]);
    let mut reader = AssetReader::new(o.bytes);
    reader.set_endianness(Endianness::Little);
    let t = reader.read_unity_type(false, false, 15).unwrap();
    assert_eq!(t.class_id, -7);
    assert_eq!(t.is_stripped_type, false);
    assert_eq!(t.script_type_index, -1);
    assert_eq!(t.script_id, vec![1; 16]);
    assert_eq!(t.old_type_hash, vec![2; 16]);
    assert_eq!(reader.current_pos().unwrap(), 36);

    // version 12: nothing but the class id
    let mut reader = AssetReader::new(vec![0, 0, 0, 114]);
    let t = reader.read_unity_type(false, false, 12).unwrap();
    assert_eq!(t.class_id, 114);
    assert_eq!(t.script_id, Vec::<u8>::new());
    assert_eq!(t.old_type_hash, Vec::<u8>::new());

    // version 17, a reference type with a script type index
    let mut o = Out::new(true);
    o.i32(5);
    o.u8(1);
    o.i16(0);
    o.raw(&[3; 16]);
    o.raw(&[4; 16]);
    let mut reader = AssetReader::new(o.bytes.clone());
    reader.set_endianness(Endianness::Little);
    let t = reader.read_unity_type(true, false, 17).unwrap();
    assert_eq!(t.is_stripped_type, true);
    assert_eq!(t.script_type_index, 0);
    assert_eq!(t.script_id, vec![3; 16]);
    assert_eq!(t.old_type_hash, vec![4; 16]);
    // the same bytes as a plain type carry no script id
    let mut reader = AssetReader::new(o.bytes);
    reader.set_endianness(Endianness::Little);
    let t = reader.read_unity_type(false, false, 17).unwrap();
    assert_eq!(t.script_id, Vec::<u8>::new());
    assert_eq!(t.old_type_hash, vec![3; 16]);
}

fn blob_tree(o: &mut Out, version: u8, nodes: u32, strings: &[u8]) {
    o.i32(nodes as i32);
    o.i32(strings.len() as i32);
    for i in 0..nodes {
        o.i16(1);
        o.u8(i as u8);
        o.u8(2);
        o.u32(10 + i);
        o.u32(20 + i);
        o.i32(-1);
        o.i32(i as i32);
        o.i32(0x4000);
        if version >= 19 {
            o.u64(0xfeed_0000 + i as u64);
        }
    }
    o.raw(strings);
}

#[test]
fn a_blob_type_tree() {
    for version in [12u8, 18, 19, 21] {
        let mut o = Out::new(true);
        blob_tree(&mut o, version, 3, b"int\0x\0");
        let len = o.bytes.len() as u64;
        let mut reader = AssetReader::new(o.bytes);
        reader.set_endianness(Endianness::Little);
        let (nodes, strings) = reader.read_type_tree_blob(version).unwrap();
        assert_eq!(reader.current_pos().unwrap(), len);
        assert_eq!(strings, b"int\0x\0".to_vec());
        assert_eq!(nodes.len(), 3);
        assert_eq!(nodes[2].version, 1);
        assert_eq!(nodes[2].level, 2);
        assert_eq!(nodes[2].type_flags, 2);
        assert_eq!(nodes[2].type_str_offset, Some(12));
        assert_eq!(nodes[2].name_str_offset, Some(22));
        assert_eq!(nodes[2].byte_size, -1);
        assert_eq!(nodes[2].index, Some(2));
        assert_eq!(nodes[2].meta_flag, Some(0x4000));
        assert_eq!(nodes[2].ref_type_hash, if version >= 19 { Some(0xfeed_0002) } else { None });
        assert_eq!(nodes[2].typ, None);
        assert_eq!(nodes[2].name, None);
        assert_eq!(nodes[2].variable_count, None);
    }
}

#[test]
fn a_blob_type_tree_rejects_negative_sizes() {
    let mut o = Out::new(true);
    o.i32(-1);
    o.i32(0);
    let mut reader = AssetReader::new(o.bytes);
    reader.set_endianness(Endianness::Little);
    match reader.read_type_tree_blob(20) {
        Err(AssetReaderError::DeserializationError(m)) => assert_eq!(m, "negative node count in a type tree"),
        other => panic!("{:?}", other),
    }
    let mut o = Out::new(true);
    o.i32(0);
    o.i32(-5);
    let mut reader = AssetReader::new(o.bytes);
    reader.set_endianness(Endianness::Little);
    match reader.read_type_tree_blob(20) {
        Err(AssetReaderError::DeserializationError(m)) => assert_eq!(m, "negative string buffer size in a type tree"),
        other => panic!("{:?}", other),
    }
    let mut o = Out::new(true);
    o.i32(1);
    o.i32(0);
    let mut reader = AssetReader::new(o.bytes);
    reader.set_endianness(Endianness::Little);
    assert!(is_eof(reader.read_type_tree_blob(20)));
}

fn tree_node(o: &mut Out, version: u8, typ: &str, name: &str, children: i32) {
    o.cstr(typ);
    o.cstr(name);
    o.i32(4);
    if version == 2 {
        o.i32(77);
    }
    if version != 3 {
        o.i32(5);
    }
    o.i32(6);
    o.i32(1);
    if version != 3 {
        o.i32(8);
    }
    o.i32(children);
}

#[test]
fn a_recursive_type_tree() {
    for version in [2u8, 3, 9, 11] {
        let mut o = Out::new(false);
        // root with two children, the first of which has one child
        tree_node(&mut o, version, "Root", "base", 2);
        tree_node(&mut o, version, "A", "a", 1);
        tree_node(&mut o, version, "B", "b", 0);
        tree_node(&mut o, version, "C", "c", -3);
        o.u8(0x99);
        let len = o.bytes.len() as u64;
        let mut reader = AssetReader::new(o.bytes);
        let nodes = reader.read_type_tree(version).unwrap();
        assert_eq!(reader.current_pos().unwrap(), len - 1);
        assert_eq!(nodes.len(), 4);
        let names: Vec<String> = nodes.iter().map(|n| n.name.clone().unwrap()).collect();
        assert_eq!(names, vec!["base", "a", "b", "c"]);
        let levels: Vec<u8> = nodes.iter().map(|n| n.level).collect();
        assert_eq!(levels, vec![0, 1, 2, 1]);
        assert_eq!(nodes[0].typ, Some("Root".to_string()));
        assert_eq!(nodes[0].byte_size, 4);
        assert_eq!(nodes[0].variable_count, if version == 2 { Some(77) } else { None });
        assert_eq!(nodes[0].index, if version != 3 { Some(5) } else { None });
        assert_eq!(nodes[0].type_flags, 6);
        assert_eq!(nodes[0].version, 1);
        assert_eq!(nodes[0].meta_flag, if version != 3 { Some(8) } else { None });
        assert_eq!(nodes[0].type_str_offset, None);
        assert_eq!(nodes[0].ref_type_hash, None);
    }
}

#[test]
fn a_recursive_type_tree_fails_on_short_input_and_too_deep_nesting() {
    let mut o = Out::new(false);
    tree_node(&mut o, 9, "Root", "base", 1);
    let mut reader = AssetReader::new(o.bytes);
    assert!(is_eof(reader.read_type_tree(9)));

    let mut o = Out::new(false);
    for _ in 0..256 {
        tree_node(&mut o, 9, "T", "n", 1);
    }
    tree_node(&mut o, 9, "T", "n", 0);
    let mut reader = AssetReader::new(o.bytes.clone());
    match reader.read_type_tree(9) {
        Err(AssetReaderError::DeserializationError(m)) => assert_eq!(m, "type tree nested too deep"),
        other => panic!("{:?}", other.map(|n| n.len())),
    }
    // 255 levels below the root are the limit
    let mut o = Out::new(false);
    for _ in 0..255 {
        tree_node(&mut o, 9, "T", "n", 1);
    }
    tree_node(&mut o, 9, "T", "n", 0);
    let mut reader = AssetReader::new(o.bytes);
    let nodes = reader.read_type_tree(9).unwrap();
    assert_eq!(nodes.len(), 256);
    assert_eq!(nodes[255].level, 255);
}

/// A little-endian container with type trees: one plain type and one
/// reference type, each with a blob tree.
fn with_type_trees(version: u32) -> Vec<u8> {
    let mut bytes = header(version, 0, 0, 64, true);
    let mut o = Out::new(true);
    o.cstr("2021.1.4f1");
    o.u32(5);
    o.u8(1);
    o.u32(1);
    o.i32(21);
    o.u8(0);
    o.i16(-1);
    o.raw(&[9; 16]);
    blob_tree(&mut o, version as u8, 2, b"ab\0");
    if version >= 21 {
        o.u32(2);
        o.u32(114);
        o.u32(115);
    }
    bytes.append(&mut o.bytes);
    o = Out::new(true);
    o.i32(1);
    while (bytes.len() + o.bytes.len()) % 4 != 0 {
        o.u8(0);
    }
    o.i64(42);
    if version >= 22 {
        o.i64(8);
    } else {
        o.u32(8);
    }
    o.u32(16);
    o.i32(0);
    o.i32(1);
    o.i32(0);
    while (bytes.len() + o.bytes.len()) % 4 != 0 {
        o.u8(0);
    }
    o.i64(0x1_0000_0002);
    o.i32(0);
    if version >= 20 {
        o.i32(1);
        o.i32(-3);
        o.u8(0);
        o.i16(4);
        o.raw(&[5; 16]);
        o.raw(&[6; 16]);
        blob_tree(&mut o, version as u8, 1, b"");
        if version >= 21 {
            o.cstr("Klass");
            o.cstr("Name.Space");
            o.cstr("Assembly-CSharp");
        }
    }
    o.cstr("user");
    bytes.append(&mut o.bytes);
    bytes
}

#[test]
fn a_container_with_type_trees() {
    for version in 17..=22u32 {
        let data = with_type_trees(version);
        let len = data.len() as u64;
        let mut reader = AssetReader::new(data);
        let asset = reader.read_asset_info().unwrap();
        assert_eq!(reader.current_pos().unwrap(), len);
        assert_eq!(asset.metadata.unity_version, UnityVersion::parse("2021.1.4f1").unwrap());
        assert_eq!(asset.metadata.enable_type_tree, true);
        assert_eq!(asset.metadata.types.len(), 1);
        assert_eq!(asset.metadata.types[0].type_dependencies, if version >= 21 { vec![114, 115] } else { vec![] });
        assert!(asset.metadata.types[0].type_tree.is_none());
        assert_eq!(asset.objects.len(), 1);
        assert_eq!(asset.objects[0].path_id, 42);
        assert_eq!(asset.objects[0].byte_start, 72);
        assert_eq!(asset.script_types.len(), 1);
        assert_eq!(asset.script_types[0].local_identifier_in_file, 2);
        assert_eq!(asset.externals.len(), 0);
        if version >= 20 {
            assert_eq!(asset.ref_types.len(), 1);
            assert_eq!(asset.ref_types[0].class_id, -3);
            assert_eq!(asset.ref_types[0].script_type_index, 4);
            assert_eq!(asset.ref_types[0].script_id, vec![5; 16]);
            assert_eq!(asset.ref_types[0].class_name, if version >= 21 { "Klass" } else { "" });
            assert_eq!(asset.ref_types[0].name_space, if version >= 21 { "Name.Space" } else { "" });
            assert_eq!(asset.ref_types[0].asm_name, if version >= 21 { "Assembly-CSharp" } else { "" });
            assert_eq!(asset.ref_types[0].type_dependencies, Vec::<u32>::new());
        } else {
            assert_eq!(asset.ref_types.len(), 0);
        }
        assert_eq!(asset.user_information, "user");
        check_objects_typed(&asset);
    }
}

#[test]
fn a_truncated_container_fails_at_every_length() {
    let data = shared_assets(20, true);
    for n in [0, 4, 19, 20, 25, 40, 100, 500, data.len() - 40, data.len() - 1] {
        let mut reader = AssetReader::new(data[..n].to_vec());
        assert!(is_eof(reader.read_asset_info()), "length {}", n);
    }
}

#[test]
fn decoding_a_directory_twice_gives_the_same() {
    let data = with_type_trees(21);
    let mut r1 = AssetReader::new(data.clone());
    let mut r2 = AssetReader::new(data);
    let a = r1.read_asset_info().unwrap();
    let b = r2.read_asset_info().unwrap();
    assert_eq!(format!("{:?}", a), format!("{:?}", b));
    assert_eq!(r1.current_pos().unwrap(), r2.current_pos().unwrap());
    r1.seek(SeekFrom::Start(0)).unwrap();
    let c = r1.read_asset_info().unwrap();
    assert_eq!(format!("{:?}", a), format!("{:?}", c));
}

#[test]
fn seek_to_object_moves_to_its_first_byte() {
    let data = shared_assets(20, true);
    let mut reader = AssetReader::new(data);
    let asset = reader.read_asset_info().unwrap();
    assert_eq!(reader.seek_to_object(&asset.objects[3]).unwrap(), 4096 + 3 * 128);
    assert_eq!(reader.current_pos().unwrap(), 4096 + 3 * 128);
    assert_eq!(reader.seek_to_object(&asset.objects[3]).unwrap(), 4096 + 3 * 128);
    let mut gone = one_type_metadata().types.remove(0);
    gone.class_id = 1;
    let obj = UnityObject { path_id: 1, byte_start: -1, byte_size: 0, type_id: 0, serialized_type: gone, class_id: 1 };
    assert!(matches!(reader.seek_to_object(&obj), Err(AssetReaderError::IO(IoFault::InvalidSeek))));
    assert_eq!(reader.current_pos().unwrap(), 4096 + 3 * 128);
}
