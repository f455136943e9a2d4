use s2_dbpf::bcon::Bcon;
use s2_dbpf::bcon::read_bcon;
use s2_dbpf::bcon::write_bcon;
use s2_dbpf::bytes::Position;
use s2_dbpf::bytes::Size;
use s2_dbpf::bytes::U24;
use s2_dbpf::bytes::copy_within_slice;
use s2_dbpf::bytes::read_u16_be;
use s2_dbpf::bytes::read_u24_be;
use s2_dbpf::bytes::read_u32_le;
use s2_dbpf::bytes::write_u32_le;
use s2_dbpf::data_kinds::DbpfEntry;
use s2_dbpf::data_kinds::DbpfId;
use s2_dbpf::data_kinds::Unimplemented;
use s2_dbpf::key::GroupId;
use s2_dbpf::key::InstanceId;
use s2_dbpf::key::Key;
use s2_dbpf::key::ResourceId;
use s2_dbpf::key::TypeCode;
use s2_dbpf::key::read_key;
use s2_dbpf::key::write_key;

#[test]
fn main() {
    let _new = DbpfId::BehaviorConstant;
}

#[test]
fn key_round_trips_with_resource_id() {
    let key = Key::new(
        TypeCode(0x4248_4156),
        GroupId(0xDEAD_BEEF),
        InstanceId(0x0000_1000),
        Some(ResourceId(0xFFFF_FFFF)),
    );
    let mut bytes: Vec<u8> = Vec::new();
    write_key(&key, &mut bytes);
    assert_eq!(bytes.len(), 16);
    let (back, next) = read_key(&bytes, 0, true).unwrap();
    assert_eq!(next, 16);
    assert_eq!(back, key);
}

#[test]
fn key_round_trips_without_resource_id() {
    let key = Key::new(
        TypeCode(0x4243_4F4E),
        GroupId(7),
        InstanceId(0x8000_0001),
        None,
    );
    let mut bytes: Vec<u8> = Vec::new();
    write_key(&key, &mut bytes);
    assert_eq!(bytes.len(), 12);
    let (back, next) = read_key(&bytes, 0, false).unwrap();
    assert_eq!(next, 12);
    assert_eq!(back, key);
}

#[test]
fn key_read_fails_on_short_stream() {
    let bytes: Vec<u8> = vec![0; 12];
    assert!(read_key(&bytes, 0, true).is_none());
    assert!(read_key(&bytes, 4, false).is_none());
}

#[test]
fn absent_resource_id_differs_from_zero() {
    let without = Key::new(TypeCode(1), GroupId(2), InstanceId(3), None);
    let with_zero = Key::new(TypeCode(1), GroupId(2), InstanceId(3), Some(ResourceId(0)));
    assert_ne!(without, with_zero);
}

#[test]
fn kind_codes_round_trip() {
    assert_eq!(DbpfId::BehaviorConstant.id(), 0x4243_4F4E);
    assert_eq!(DbpfId::BehaviorFunction.id(), 0x4248_4156);
    assert_eq!(DbpfId::Directory.id(), 0xE86B_1EEF);
    assert_eq!(DbpfId::UiData.id(), 0);
    assert_eq!(DbpfId::from_id(0x4243_4F4E), DbpfId::BehaviorConstant);
    assert_eq!(DbpfId::from_id(0xE86B_1EEF), DbpfId::Directory);
    assert_eq!(DbpfId::from_id(0xFFFF_FFFF), DbpfId::Unimplemented);
}

#[test]
fn unknown_kind_codes_fall_back() {
    assert_eq!(DbpfId::from_id(0x1234_5678), DbpfId::Unimplemented);
    assert_eq!(DbpfId::default(), DbpfId::Unimplemented);
}

#[test]
fn kind_names_match_the_registry() {
    assert_eq!(DbpfId::BehaviorConstant.short_name(), "BCON");
    assert_eq!(DbpfId::BehaviorConstant.long_name(), "Behavior Constant");
    assert_eq!(DbpfId::Directory.short_name(), "DIR");
    assert_eq!(
        DbpfId::Directory.long_name(),
        "Directory of Compressed Files"
    );
    assert_eq!(DbpfId::SimWantsAndFears.short_name(), "SWAF");
    assert_eq!(DbpfId::Unimplemented.short_name(), "UNIMP");
}

#[test]
fn unimplemented_payload_keeps_its_bytes() {
    let u = Unimplemented::new(vec![1, 2, 3]);
    assert_eq!(u.data, vec![1, 2, 3]);
    assert_eq!(u.id(), DbpfId::Unimplemented);
    assert!(u.name().is_none());
}

#[test]
fn size_helpers_scale_to_bytes() {
    assert_eq!(Size::word(3), Size(6));
    assert_eq!(Size::dword(4), Size(16));
    assert_eq!(Size::dword(5), Size(20));
    assert_eq!(Position(7), Position(7));
}

#[test]
fn integer_fields_read_and_write() {
    let mut bytes: Vec<u8> = Vec::new();
    write_u32_le(&mut bytes, 0x1234_5678);
    assert_eq!(bytes, vec![0x78, 0x56, 0x34, 0x12]);
    assert_eq!(read_u32_le(&bytes, 0), 0x1234_5678);
    let be: Vec<u8> = vec![0x10, 0xFB, 0x00, 0x01, 0x40];
    assert_eq!(read_u16_be(&be, 0), 0x10FB);
    assert_eq!(read_u24_be(&be, 2), U24(0x0001_40));
}

#[test]
fn copy_within_slice_moves_a_range() {
    let mut v: Vec<u8> = vec![1, 2, 3, 4, 5, 6];
    copy_within_slice(&mut v, 0, 3, 3);
    assert_eq!(v, vec![1, 2, 3, 1, 2, 3]);
    let mut w: Vec<u8> = vec![1, 2, 3, 4, 5, 6];
    copy_within_slice(&mut w, 4, 0, 2);
    assert_eq!(w, vec![5, 6, 3, 4, 5, 6]);
}

fn bcon_test_bytes() -> Vec<u8> {
    let mut bytes = Vec::new();
    bytes.extend_from_slice(b"TestFile");
    bytes.extend_from_slice(&[0; 56]);
    bytes.push(8); // count
    bytes.push(8); // flags
    for c in 1..=8i16 {
        bytes.extend_from_slice(&c.to_le_bytes());
    }
    bytes
}

#[test]
fn bcon_parses_its_fields() {
    let bytes = bcon_test_bytes();
    let (b, next) = read_bcon(&bytes, 0).unwrap();
    assert_eq!(next, bytes.len());
    assert_eq!(b.file_name, b"TestFile".to_vec());
    assert_eq!(b.flags, 8);
    assert_eq!(b.constants, vec![1, 2, 3, 4, 5, 6, 7, 8]);
}

#[test]
fn bcon_writes_the_same_bytes_back() {
    let b = Bcon {
        file_name: b"TestFile".to_vec(),
        flags: 8,
        constants: vec![1, 2, 3, 4, 5, 6, 7, 8],
    };
    let mut out: Vec<u8> = Vec::new();
    write_bcon(&b, &mut out);
    assert_eq!(out, bcon_test_bytes());
    let (back, _) = read_bcon(&out, 0).unwrap();
    assert_eq!(back, b);
}

#[test]
fn bcon_round_trips_negative_constants() {
    let b = Bcon {
        file_name: b"neg".to_vec(),
        flags: 0,
        constants: vec![-1, -32768, 32767, 0],
    };
    let mut out: Vec<u8> = Vec::new();
    write_bcon(&b, &mut out);
    let (back, _) = read_bcon(&out, 0).unwrap();
    assert_eq!(back, b);
}

#[test]
fn bcon_read_fails_on_short_stream() {
    let bytes: Vec<u8> = vec![0; 65];
    assert!(read_bcon(&bytes, 0).is_none());
    let mut short = bcon_test_bytes();
    short.truncate(70);
    assert!(read_bcon(&short, 0).is_none());
}
