use unity_assets::asset::{AssetHeader, AssetInfo, AssetMetadata, Endianness, PersistentPtr};
use unity_assets::material::UnityMaterial;
use unity_assets::reader::{AssetReader, AssetReaderError, Deserialize};
use unity_assets::version::UnityVersion;
use unity_assets::wire::IoFault;

fn info(endianness: Endianness) -> AssetInfo {
    AssetInfo {
        header: AssetHeader { metadata_size: 0, file_size: 0, version: 20, data_offset: 0, endianness },
        metadata: AssetMetadata {
            unity_version: UnityVersion::parse("2019.2.17f1").unwrap(),
            target_platform: 0,
            enable_type_tree: false,
            types: Vec::new(),
        },
        objects: Vec::new(),
        script_types: Vec::new(),
        externals: Vec::new(),
        ref_types: Vec::new(),
        user_information: String::new(),
    }
}

struct Out {
    bytes: Vec<u8>,
    little: bool,
}

impl Out {
    fn put(&mut self, le: &[u8]) {
        if self.little {
            self.bytes.extend_from_slice(le);
        } else {
            self.bytes.extend(le.iter().rev());
        }
    }

    fn u8(&mut self, v: u8) {
        self.bytes.push(v);
    }

    fn u32(&mut self, v: u32) {
        self.put(&v.to_le_bytes());
    }

    fn i32(&mut self, v: i32) {
        self.put(&v.to_le_bytes());
    }

    fn i64(&mut self, v: i64) {
        self.put(&v.to_le_bytes());
    }

    fn f32(&mut self, v: f32) {
        self.put(&v.to_le_bytes());
    }

    fn align(&mut self) {
        while self.bytes.len() % 4 != 0 {
            self.bytes.push(0);
        }
    }

    fn chars(&mut self, s: &str) {
        self.u32(s.len() as u32);
        self.bytes.extend_from_slice(s.as_bytes());
        self.align();
    }
}

const TEX_ENVS: [(&str, i32, i64, [f32; 4]); 3] = [
    ("_MainTex", 0, 101, [1.0, 1.0, 0.0, 0.0]),
    ("_BumpMap", 1, -7, [2.0, 0.5, 0.25, -0.25]),
    ("_A", 0, 0, [1.0, 1.0, 0.0, 0.0]),
];
const FLOATS: [(&str, f32); 4] = [("_Glossiness", 0.5), ("_Cutoff", 0.25), ("_Mode", 3.0), ("_Cutoff", 0.75)];
const COLORS: [(&str, [f32; 4]); 2] = [("_Color", [1.0, 0.5, 0.25, 1.0]), ("_EmissionColor", [0.0, 0.0, 0.0, 1.0])];

fn material(little: bool) -> Vec<u8> {
    let mut o = Out { bytes: Vec::new(), little };
    o.chars("Rock");
    o.i32(0);
    o.i64(4711);
    o.chars("_EMISSION _NORMALMAP");
    o.u32(4);
    o.u8(1);
    o.u8(0);
    o.align();
    o.i32(-1);
    o.i32(2);
    o.chars("RenderType");
    o.chars("Opaque");
    o.chars("Queue");
    o.chars("Geometry");
    o.i32(1);
    o.chars("SHADOWCASTER");
    o.align();
    o.i32(TEX_ENVS.len() as i32);
    for (name, file_id, path_id, st) in TEX_ENVS.iter() {
        o.chars(name);
        o.i32(*file_id);
        o.i64(*path_id);
        for x in st.iter() {
            o.f32(*x);
        }
    }
    o.i32(FLOATS.len() as i32);
    for (name, x) in FLOATS.iter() {
        o.chars(name);
        o.f32(*x);
    }
    o.i32(COLORS.len() as i32);
    for (name, c) in COLORS.iter() {
        o.chars(name);
        for x in c.iter() {
            o.f32(*x);
        }
    }
    o.bytes
}

fn check(m: &UnityMaterial) {
    assert_eq!(m.name, "Rock");
    assert!(!m.name.is_empty());
    assert_eq!(m.shader, PersistentPtr { file_id: 0, path_id: 4711 });
    assert_eq!(m.keywords, "_EMISSION _NORMALMAP");
    let p = &m.saved_properties;
    assert_eq!(p.get_tex_env_count(), 3);
    assert_eq!(p.get_float_count(), 4);
    assert_eq!(p.get_color_count(), 2);
    for (i, (name, file_id, path_id, st)) in TEX_ENVS.iter().enumerate() {
        assert_eq!(p.get_tex_env_name(i), *name);
        let t = p.get_tex_env(i).unwrap();
        assert_eq!(t.texture, PersistentPtr { file_id: *file_id, path_id: *path_id });
        assert_eq!(f32::from_bits(t.scale.x), st[0]);
        assert_eq!(f32::from_bits(t.scale.y), st[1]);
        assert_eq!(f32::from_bits(t.offset.x), st[2]);
        assert_eq!(f32::from_bits(t.offset.y), st[3]);
    }
    for (i, (name, x)) in FLOATS.iter().enumerate() {
        assert_eq!(p.get_float_name(i), *name);
        assert_eq!(f32::from_bits(p.get_float(i)), *x);
    }
    for (i, (name, c)) in COLORS.iter().enumerate() {
        assert_eq!(p.get_color_name(i), *name);
        let got = p.get_color(i);
        assert_eq!([f32::from_bits(got.r), f32::from_bits(got.g), f32::from_bits(got.b), f32::from_bits(got.a)], *c);
    }
    let bump = p.find_tex_env("_BumpMap".to_string()).unwrap();
    assert_eq!(bump.texture.path_id, -7);
    assert_eq!(f32::from_bits(bump.offset.y), -0.25);
    assert_eq!(p.find_tex_env("_MainTex".to_string()), p.get_tex_env(0));
    assert_eq!(p.find_tex_env("_Missing".to_string()), None);
    assert_eq!(p.find_tex_env("".to_string()), None);
}

#[test]
fn decodes_a_material() {
    let data = material(true);
    let m = UnityMaterial::from_bytes(data.clone(), &info(Endianness::Little)).unwrap();
    check(&m);
    let mut reader = AssetReader::new(data.clone());
    reader.set_endianness(Endianness::Little);
    let m = UnityMaterial::deserialize(&mut reader, &info(Endianness::Little)).unwrap();
    check(&m);
    assert_eq!(reader.current_pos().unwrap(), data.len() as u64);
}

#[test]
fn decodes_a_big_endian_material_to_the_same() {
    let le = UnityMaterial::from_bytes(material(true), &info(Endianness::Little)).unwrap();
    let be = UnityMaterial::from_bytes(material(false), &info(Endianness::Big)).unwrap();
    check(&be);
    assert_eq!(format!("{:?}", le), format!("{:?}", be));
}

#[test]
fn property_sheet_counts_are_the_map_lengths() {
    let m = UnityMaterial::from_bytes(material(true), &info(Endianness::Little)).unwrap();
    let p = &m.saved_properties;
    let mut names = Vec::new();
    for i in 0..p.get_float_count() {
        names.push(p.get_float_name(i));
    }
    assert_eq!(names, vec!["_Glossiness", "_Cutoff", "_Mode", "_Cutoff"]);
    let mut names = Vec::new();
    for i in 0..p.get_tex_env_count() {
        names.push(p.get_tex_env_name(i));
    }
    assert_eq!(names, vec!["_MainTex", "_BumpMap", "_A"]);
    let mut names = Vec::new();
    for i in 0..p.get_color_count() {
        names.push(p.get_color_name(i));
    }
    assert_eq!(names, vec!["_Color", "_EmissionColor"]);
}

#[test]
fn a_material_in_the_wrong_byte_order_fails() {
    let r = UnityMaterial::from_bytes(material(true), &info(Endianness::Big));
    assert!(matches!(r, Err(AssetReaderError::IO(IoFault::UnexpectedEof))));
}

#[test]
fn a_truncated_material_fails() {
    let data = material(true);
    for n in 0..data.len() {
        let r = UnityMaterial::from_bytes(data[..n].to_vec(), &info(Endianness::Little));
        assert!(matches!(r, Err(AssetReaderError::IO(IoFault::UnexpectedEof))), "length {}", n);
    }
}

#[test]
fn decoding_a_material_twice_gives_the_same() {
    let data = material(true);
    let asset = info(Endianness::Little);
    let mut reader = AssetReader::new(data);
    reader.set_endianness(Endianness::Little);
    let a = UnityMaterial::deserialize(&mut reader, &asset).unwrap();
    let end = reader.current_pos().unwrap();
    reader.seek(unity_assets::reader::SeekFrom::Start(0)).unwrap();
    let b = UnityMaterial::deserialize(&mut reader, &asset).unwrap();
    assert_eq!(format!("{:?}", a), format!("{:?}", b));
    assert_eq!(reader.current_pos().unwrap(), end);
}
