use unity_assets::asset::{AssetHeader, AssetInfo, AssetMetadata, Endianness, OMap, PersistentPtr, Vec2f};
use unity_assets::reader::{AssetReader, AssetReaderError, Deserialize, SeekFrom};
use unity_assets::version::UnityVersion;
use unity_assets::wire::IoFault;

fn info(endianness: Endianness, version: &str) -> AssetInfo {
    AssetInfo {
        header: AssetHeader { metadata_size: 0, file_size: 0, version: 20, data_offset: 0, endianness },
        metadata: AssetMetadata {
            unity_version: UnityVersion::parse(version).unwrap(),
            target_platform: 0,
            enable_type_tree: false,
            types: Vec::new(),
        },
        objects: Vec::new(),
        script_types: Vec::new(),
        externals: Vec::new(),
        ref_types: Vec::new(),
        user_information: String::new(),
    }
}

fn little(data: &[u8]) -> AssetReader {
    let mut r = AssetReader::new(data.to_vec());
    r.set_endianness(Endianness::Little);
    r
}

fn is_eof<T>(r: Result<T, AssetReaderError>) -> bool {
    matches!(r, Err(AssetReaderError::IO(IoFault::UnexpectedEof)))
}

fn is_bad_seek<T>(r: Result<T, AssetReaderError>) -> bool {
    matches!(r, Err(AssetReaderError::IO(IoFault::InvalidSeek)))
}

#[test]
fn a_new_reader_is_big_endian_at_the_start() {
    let mut r = AssetReader::new(vec![0x01, 0x02, 0x03, 0x04]);
    assert_eq!(r.current_pos().unwrap(), 0);
    assert_eq!(r.read_u32().unwrap(), 0x0102_0304);
    assert_eq!(r.current_pos().unwrap(), 4);
}

#[test]
fn reads_u8_whatever_the_byte_order() {
    let mut r = AssetReader::new(vec![0xab, 0xcd]);
    assert_eq!(r.read_u8().unwrap(), 0xab);
    r.set_endianness(Endianness::Little);
    assert_eq!(r.read_u8().unwrap(), 0xcd);
    assert!(is_eof(r.read_u8()));
}

#[test]
fn reads_u16_in_both_orders() {
    let mut r = AssetReader::new(vec![0x12, 0x34, 0x12, 0x34]);
    assert_eq!(r.read_u16().unwrap(), 0x1234);
    r.set_endianness(Endianness::Little);
    assert_eq!(r.read_u16().unwrap(), 0x3412);
    assert!(is_eof(r.read_u16()));
}

#[test]
fn reads_i16_in_both_orders() {
    let mut r = AssetReader::new(vec![0xff, 0x85, 0xff, 0x85, 0x80, 0x00, 0x7f, 0xff]);
    assert_eq!(r.read_i16().unwrap(), -123);
    r.set_endianness(Endianness::Little);
    assert_eq!(r.read_i16().unwrap(), -31233);
    r.set_endianness(Endianness::Big);
    assert_eq!(r.read_i16().unwrap(), i16::MIN);
    assert_eq!(r.read_i16().unwrap(), i16::MAX);
}

#[test]
fn reads_u32_in_both_orders() {
    let mut r = AssetReader::new(vec![0x00, 0x00, 0x01, 0x0b, 0x00, 0x00, 0x01, 0x0b, 0xff]);
    assert_eq!(r.read_u32().unwrap(), 267);
    r.set_endianness(Endianness::Little);
    assert_eq!(r.read_u32().unwrap(), 0x0b01_0000);
    assert!(is_eof(r.read_u32()));
}

#[test]
fn reads_i32_in_both_orders() {
    let mut r = AssetReader::new(vec![0xff, 0xff, 0x7a, 0x33, 0xff, 0xff, 0x7a, 0x33]);
    assert_eq!(r.read_i32().unwrap(), -34253);
    r.set_endianness(Endianness::Little);
    assert_eq!(r.read_i32().unwrap(), 0x337a_ffff);
    let mut r = little(&[0x00, 0x00, 0x00, 0x80, 0xff, 0xff, 0xff, 0x7f, 0xff, 0xff, 0xff, 0xff]);
    assert_eq!(r.read_i32().unwrap(), i32::MIN);
    assert_eq!(r.read_i32().unwrap(), i32::MAX);
    assert_eq!(r.read_i32().unwrap(), -1);
}

#[test]
fn reads_u64_in_both_orders() {
    let bytes = vec![0x01, 0x23, 0x45, 0x67, 0x89, 0xab, 0xcd, 0xef];
    let mut r = AssetReader::new(bytes.clone());
    assert_eq!(r.read_u64().unwrap(), 0x0123_4567_89ab_cdef);
    let mut r = little(&bytes);
    assert_eq!(r.read_u64().unwrap(), 0xefcd_ab89_6745_2301);
    assert!(is_eof(r.read_u64()));
}

#[test]
fn reads_i64_in_both_orders() {
    let bytes = vec![0xff, 0xff, 0xff, 0xff, 0xc4, 0x65, 0x36, 0x00];
    let mut r = AssetReader::new(bytes.clone());
    assert_eq!(r.read_i64().unwrap(), -1_000_000_000);
    let mut r = little(&bytes);
    assert_eq!(r.read_i64().unwrap(), 0x0036_65c4_ffff_ffff);
    let mut r = little(&[0, 0, 0, 0, 0, 0, 0, 0x80]);
    assert_eq!(r.read_i64().unwrap(), i64::MIN);
}

#[test]
fn reads_f32_as_its_bit_pattern() {
    let mut r = little(&1.5f32.to_le_bytes());
    let bits = r.read_f32().unwrap();
    assert_eq!(bits, 0x3fc0_0000);
    assert_eq!(f32::from_bits(bits), 1.5);
    let mut r = AssetReader::new((-0.25f32).to_be_bytes().to_vec());
    assert_eq!(f32::from_bits(r.read_f32().unwrap()), -0.25);
    let mut r = little(&f32::NAN.to_le_bytes());
    assert!(f32::from_bits(r.read_f32().unwrap()).is_nan());
}

#[test]
fn read_bool_is_true_only_for_one() {
    let mut r = AssetReader::new(vec![0, 1, 2, 255]);
    assert_eq!(r.read_bool().unwrap(), false);
    assert_eq!(r.read_bool().unwrap(), true);
    assert_eq!(r.read_bool().unwrap(), false);
    assert_eq!(r.read_bool().unwrap(), false);
    assert_eq!(r.current_pos().unwrap(), 4);
    assert!(is_eof(r.read_bool()));
}

#[test]
fn read_bytes_copies_and_fails_on_short_reads() {
    let mut r = AssetReader::new(vec![1, 2, 3, 4, 5]);
    assert_eq!(r.read_bytes(2).unwrap(), vec![1, 2]);
    assert_eq!(r.read_bytes(0).unwrap(), Vec::<u8>::new());
    assert_eq!(r.current_pos().unwrap(), 2);
    assert!(is_eof(r.read_bytes(4)));
    let mut r = AssetReader::new(vec![1, 2, 3, 4, 5]);
    assert_eq!(r.read_bytes(5).unwrap(), vec![1, 2, 3, 4, 5]);
    assert!(is_eof(r.read_bytes(1)));
    assert_eq!(r.read_bytes(0).unwrap(), Vec::<u8>::new());
}

#[test]
fn read_byte_array_does_not_align() {
    let mut r = little(&[3, 0, 0, 0, 9, 8, 7, 6]);
    assert_eq!(r.read_byte_array().unwrap(), vec![9, 8, 7]);
    assert_eq!(r.current_pos().unwrap(), 7);
    let mut r = little(&[4, 0, 0, 0, 9, 8, 7]);
    assert!(is_eof(r.read_byte_array()));
    let mut r = little(&[0xff, 0xff, 0xff, 0xff, 1]);
    assert!(is_eof(r.read_byte_array()));
}

#[test]
fn read_char_array_widens_bytes_and_aligns() {
    let mut r = little(&[5, 0, 0, 0, b'h', b'e', b'l', b'l', b'o', 0, 0, 0, 0x2a]);
    assert_eq!(r.read_char_array().unwrap(), "hello");
    assert_eq!(r.current_pos().unwrap(), 12);
    assert_eq!(r.read_u8().unwrap(), 0x2a);
    let mut r = little(&[2, 0, 0, 0, 0xe9, 0xff]);
    let s = r.read_char_array().unwrap();
    assert_eq!(s.chars().collect::<Vec<char>>(), vec!['\u{e9}', '\u{ff}']);
    assert_eq!(r.current_pos().unwrap(), 8);
    let mut r = little(&[0, 0, 0, 0]);
    assert_eq!(r.read_char_array().unwrap(), "");
    assert_eq!(r.current_pos().unwrap(), 4);
}

#[test]
fn read_null_terminated_string_stops_at_zero() {
    let mut r = AssetReader::new(vec![b'a', b'b', 0, 0xfc, 0, 0, b'x']);
    assert_eq!(r.read_null_terminated_string().unwrap(), "ab");
    assert_eq!(r.current_pos().unwrap(), 3);
    assert_eq!(r.read_null_terminated_string().unwrap(), "\u{fc}");
    assert_eq!(r.read_null_terminated_string().unwrap(), "");
    assert_eq!(r.current_pos().unwrap(), 6);
    assert!(is_eof(r.read_null_terminated_string()));
}

#[test]
fn read_u32_array_has_a_u32_count_and_no_alignment() {
    let mut r = little(&[2, 0, 0, 0, 1, 0, 0, 0, 0, 1, 0, 0, 9]);
    assert_eq!(r.read_u32_array().unwrap(), vec![1, 256]);
    assert_eq!(r.current_pos().unwrap(), 12);
    let mut r = little(&[3, 0, 0, 0, 1, 0, 0, 0, 0, 1, 0, 0, 9]);
    assert!(is_eof(r.read_u32_array()));
    let mut r = little(&[0, 0, 0, 0]);
    assert_eq!(r.read_u32_array().unwrap(), Vec::<u32>::new());
}

#[test]
fn read_u16_array_has_a_u32_count_and_no_alignment() {
    let mut r = little(&[3, 0, 0, 0, 1, 0, 0, 1, 0xff, 0xff, 0, 0]);
    assert_eq!(r.read_u16_array().unwrap(), vec![1, 256, 65535]);
    assert_eq!(r.current_pos().unwrap(), 10);
    let mut r = AssetReader::new(vec![0, 0, 0, 1, 0x12, 0x34]);
    assert_eq!(r.read_u16_array().unwrap(), vec![0x1234]);
    let mut r = little(&[2, 0, 0, 0, 1, 0, 0]);
    assert!(is_eof(r.read_u16_array()));
}

#[test]
fn align_moves_to_the_next_multiple_of_four() {
    for start in 0u64..9 {
        let mut r = AssetReader::new(vec![0; 16]);
        r.seek(SeekFrom::Start(start)).unwrap();
        r.align().unwrap();
        let want = (start + 3) / 4 * 4;
        assert_eq!(r.current_pos().unwrap(), want);
        r.align().unwrap();
        assert_eq!(r.current_pos().unwrap(), want);
    }
}

#[test]
fn align_may_pass_the_end_and_fails_only_on_overflow() {
    let mut r = AssetReader::new(vec![0; 5]);
    r.seek(SeekFrom::Start(5)).unwrap();
    r.align().unwrap();
    assert_eq!(r.current_pos().unwrap(), 8);
    assert!(is_eof(r.read_u8()));
    let mut r = AssetReader::new(vec![0; 5]);
    r.seek(SeekFrom::Start(u64::MAX - 1)).unwrap();
    assert!(is_bad_seek(r.align()));
    r.seek(SeekFrom::Start(u64::MAX - 3)).unwrap();
    r.align().unwrap();
    assert_eq!(r.current_pos().unwrap(), u64::MAX - 3);
}

#[test]
fn seek_moves_from_start_end_and_cursor() {
    let mut r = AssetReader::new(vec![10, 11, 12, 13, 14]);
    assert_eq!(r.seek(SeekFrom::Start(3)).unwrap(), 3);
    assert_eq!(r.read_u8().unwrap(), 13);
    assert_eq!(r.seek(SeekFrom::Current(-3)).unwrap(), 1);
    assert_eq!(r.read_u8().unwrap(), 11);
    assert_eq!(r.seek(SeekFrom::End(-1)).unwrap(), 4);
    assert_eq!(r.read_u8().unwrap(), 14);
    assert_eq!(r.seek(SeekFrom::End(0)).unwrap(), 5);
    assert!(is_eof(r.read_u8()));
    assert_eq!(r.seek(SeekFrom::Current(0)).unwrap(), 5);
}

#[test]
fn seek_past_the_end_is_accepted_and_the_next_read_fails() {
    let mut r = AssetReader::new(vec![1, 2, 3]);
    assert_eq!(r.seek(SeekFrom::Start(100)).unwrap(), 100);
    assert_eq!(r.current_pos().unwrap(), 100);
    assert!(is_eof(r.read_u8()));
    assert!(is_eof(r.read_u32()));
    assert_eq!(r.read_bytes(0).unwrap(), Vec::<u8>::new());
    assert_eq!(r.seek(SeekFrom::End(7)).unwrap(), 10);
}

#[test]
fn seek_to_a_negative_or_overflowing_target_fails_and_stays() {
    let mut r = AssetReader::new(vec![1, 2, 3]);
    r.seek(SeekFrom::Start(2)).unwrap();
    assert!(is_bad_seek(r.seek(SeekFrom::Current(-3))));
    assert_eq!(r.current_pos().unwrap(), 2);
    assert!(is_bad_seek(r.seek(SeekFrom::End(-4))));
    assert_eq!(r.current_pos().unwrap(), 2);
    r.seek(SeekFrom::Start(u64::MAX)).unwrap();
    assert!(is_bad_seek(r.seek(SeekFrom::Current(1))));
    assert_eq!(r.current_pos().unwrap(), u64::MAX);
    assert_eq!(r.seek(SeekFrom::Current(i64::MIN)).unwrap(), u64::MAX - (1u64 << 63));
}

#[test]
fn arrays_have_an_i32_count_and_end_aligned() {
    let asset = info(Endianness::Little, "2019.2.17f1");
    let mut r = little(&[3, 0, 0, 0, 1, 2, 3, 0, 0x77]);
    assert_eq!(u8::deserialize_array(&mut r, &asset).unwrap(), vec![1, 2, 3]);
    assert_eq!(r.current_pos().unwrap(), 8);
    assert_eq!(r.read_u8().unwrap(), 0x77);
    let mut r = little(&[1, 0, 0, 0, 0x34, 0x12, 0, 0]);
    assert_eq!(u16::deserialize_array(&mut r, &asset).unwrap(), vec![0x1234]);
    assert_eq!(r.current_pos().unwrap(), 8);
    let mut r = little(&[0, 0, 0, 0]);
    assert_eq!(u32::deserialize_array(&mut r, &asset).unwrap(), Vec::<u32>::new());
    assert_eq!(r.current_pos().unwrap(), 4);
}

#[test]
fn arrays_with_a_negative_count_are_empty() {
    let asset = info(Endianness::Little, "2019.2.17f1");
    let mut r = little(&[0xff, 0xff, 0xff, 0xff, 1, 2, 3, 4]);
    assert_eq!(i32::deserialize_array(&mut r, &asset).unwrap(), Vec::<i32>::new());
    assert_eq!(r.current_pos().unwrap(), 4);
}

#[test]
fn arrays_fail_where_an_item_fails() {
    let asset = info(Endianness::Little, "2019.2.17f1");
    let mut r = little(&[2, 0, 0, 0, 1, 0, 0, 0, 2, 0]);
    assert!(is_eof(u32::deserialize_array(&mut r, &asset)));
    let mut r = little(&[2, 0]);
    assert!(is_eof(u32::deserialize_array(&mut r, &asset)));
}

#[test]
fn arrays_of_strings_align_each_string() {
    let asset = info(Endianness::Little, "2019.2.17f1");
    let mut r = little(&[2, 0, 0, 0, 1, 0, 0, 0, b'a', 0, 0, 0, 2, 0, 0, 0, b'b', b'c', 0, 0]);
    assert_eq!(String::deserialize_array(&mut r, &asset).unwrap(), vec!["a".to_string(), "bc".to_string()]);
    assert_eq!(r.current_pos().unwrap(), 20);
}

#[test]
fn primitives_decode_by_the_trait() {
    let asset = info(Endianness::Big, "2019.2.17f1");
    let mut r = AssetReader::new(vec![1, 0xff, 0xff, 0xff, 0xfe, 0, 0, 0, 7, 0, 0, 0, 0, 0, 0, 0, 9, 0xab]);
    assert_eq!(bool::deserialize(&mut r, &asset).unwrap(), true);
    assert_eq!(i32::deserialize(&mut r, &asset).unwrap(), -2);
    assert_eq!(u32::deserialize(&mut r, &asset).unwrap(), 7);
    assert_eq!(i64::deserialize(&mut r, &asset).unwrap(), 9);
    assert_eq!(u8::deserialize(&mut r, &asset).unwrap(), 0xab);
}

#[test]
fn decodes_pointers_and_vectors() {
    let asset = info(Endianness::Little, "2019.2.17f1");
    let mut bytes = vec![2, 0, 0, 0];
    bytes.extend_from_slice(&(-5i64).to_le_bytes());
    bytes.extend_from_slice(&2.0f32.to_le_bytes());
    bytes.extend_from_slice(&(-3.5f32).to_le_bytes());
    let mut r = little(&bytes);
    assert_eq!(PersistentPtr::deserialize(&mut r, &asset).unwrap(), PersistentPtr { file_id: 2, path_id: -5 });
    let v = Vec2f::deserialize(&mut r, &asset).unwrap();
    assert_eq!(f32::from_bits(v.x), 2.0);
    assert_eq!(f32::from_bits(v.y), -3.5);
    assert!(is_eof(Vec2f::deserialize(&mut r, &asset)));
}

#[test]
fn ordered_maps_keep_file_order_and_do_not_align() {
    let asset = info(Endianness::Little, "2019.2.17f1");
    let mut bytes = vec![3, 0, 0, 0];
    for (k, v) in [("zeta", 1i32), ("alpha", 2), ("zeta", 3)] {
        bytes.extend_from_slice(&(k.len() as u32).to_le_bytes());
        bytes.extend_from_slice(k.as_bytes());
        while bytes.len() % 4 != 0 {
            bytes.push(0);
        }
        bytes.extend_from_slice(&v.to_le_bytes());
    }
    bytes.push(0x55);
    let mut r = little(&bytes);
    let m = <OMap<String, i32>>::deserialize(&mut r, &asset).unwrap();
    assert_eq!(m.len(), 3);
    assert_eq!(m.keys(), &vec!["zeta".to_string(), "alpha".to_string(), "zeta".to_string()]);
    assert_eq!(m.vals(), &vec![1, 2, 3]);
    assert_eq!(m.keys().len(), m.vals().len());
    assert_eq!(m.find("zeta".to_string()), Some(1));
    assert_eq!(m.find("alpha".to_string()), Some(2));
    assert_eq!(m.find("beta".to_string()), None);
    assert_eq!(r.read_u8().unwrap(), 0x55);
}

#[test]
fn ordered_maps_are_built_only_from_equal_lengths() {
    let m = OMap::<String, u32>::new();
    assert_eq!(m.len(), 0);
    assert_eq!(m.find("a".to_string()), None);
    let m = OMap::from_parts(vec!["a".to_string(), "b".to_string()], vec![1u32, 2]).unwrap();
    assert_eq!(m.len(), 2);
    assert_eq!(m.find("b".to_string()), Some(2));
    assert!(OMap::from_parts(vec!["a".to_string()], vec![1u32, 2]).is_none());
    assert!(OMap::from_parts(Vec::<String>::new(), vec![1u32]).is_none());
}

#[test]
fn ordered_maps_fail_on_short_input() {
    let asset = info(Endianness::Little, "2019.2.17f1");
    let mut r = little(&[1, 0, 0, 0, 1, 0, 0, 0, b'k', 0, 0, 0, 9, 0]);
    assert!(is_eof(<OMap<String, i32>>::deserialize(&mut r, &asset)));
    let mut r = little(&[0xfe, 0xff, 0xff, 0xff]);
    assert_eq!(<OMap<String, i32>>::deserialize(&mut r, &asset).unwrap().len(), 0);
}

#[test]
fn decoding_twice_gives_the_same_result() {
    let asset = info(Endianness::Little, "2019.2.17f1");
    let bytes = [2, 0, 0, 0, 1, 0, 0, 0, b'a', 0, 0, 0, 2, 0, 0, 0, b'b', b'c', 0, 0];
    let mut r1 = little(&bytes);
    let mut r2 = little(&bytes);
    let a = String::deserialize_array(&mut r1, &asset).unwrap();
    let b = String::deserialize_array(&mut r2, &asset).unwrap();
    assert_eq!(a, b);
    assert_eq!(r1.current_pos().unwrap(), r2.current_pos().unwrap());
    r1.seek(SeekFrom::Start(0)).unwrap();
    let c = String::deserialize_array(&mut r1, &asset).unwrap();
    assert_eq!(a, c);
    assert_eq!(r1.current_pos().unwrap(), r2.current_pos().unwrap());
}

#[test]
fn a_version_error_converts_to_a_reader_error() {
    let e = UnityVersion::parse("x").unwrap_err();
    assert!(matches!(AssetReaderError::from(e), AssetReaderError::InvalidVersion(_)));
}
