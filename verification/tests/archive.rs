use s2_dbpf::bytes::Position;
use s2_dbpf::bytes::Size;
use s2_dbpf::database_packed_file::Dbpf;
use s2_dbpf::directory;
use s2_dbpf::directory::Dir;
use s2_dbpf::directory::read_directory;
use s2_dbpf::directory::write_directory;
use s2_dbpf::error::DbpfError;
use s2_dbpf::error::Section;
use s2_dbpf::header::Header;
use s2_dbpf::header::read_header;
use s2_dbpf::index_table;
use s2_dbpf::index_table::IndexTable;
use s2_dbpf::index_table::read_index_table;
use s2_dbpf::index_table::write_index_table;
use s2_dbpf::key::GroupId;
use s2_dbpf::key::InstanceId;
use s2_dbpf::key::Key;
use s2_dbpf::key::ResourceId;
use s2_dbpf::key::TypeCode;

fn push_u32(out: &mut Vec<u8>, v: u32) {
    out.extend_from_slice(&v.to_le_bytes());
}

/// A preamble without the index minor version field: 92 bytes, minor 0.
fn make_header_bytes(count: u32, index_pos: u32, index_size: u32) -> Vec<u8> {
    let mut h = Vec::new();
    h.extend_from_slice(b"DBPF");
    push_u32(&mut h, 1); // major version
    push_u32(&mut h, 0); // minor version
    h.extend_from_slice(&[0; 20]);
    push_u32(&mut h, 7); // index major version
    push_u32(&mut h, count);
    push_u32(&mut h, index_pos);
    push_u32(&mut h, index_size);
    h.extend_from_slice(&[0; 12]);
    h.extend_from_slice(&[0; 32]);
    assert_eq!(h.len(), 92);
    h
}

#[test]
fn it_works() {
    let result = 2 + 2;
    assert_eq!(result, 4);
}

#[test]
fn header_rejects_wrong_magic() {
    let mut bytes = make_header_bytes(0, 92, 0);
    bytes[0] = b'X';
    assert_eq!(read_header(&bytes, 0), Err(DbpfError::NotSims2Format));
}

#[test]
fn header_rejects_wrong_major_version() {
    let mut bytes = make_header_bytes(0, 92, 0);
    bytes[4] = 2;
    assert_eq!(read_header(&bytes, 0), Err(DbpfError::NotSims2Format));
}

#[test]
fn header_rejects_wrong_index_major_version() {
    let mut bytes = make_header_bytes(0, 92, 0);
    bytes[32] = 8;
    assert_eq!(read_header(&bytes, 0), Err(DbpfError::NotSims2Format));
}

#[test]
fn header_rejects_short_stream() {
    let bytes: Vec<u8> = b"DBPF\x01".to_vec();
    assert_eq!(
        read_header(&bytes, 0),
        Err(DbpfError::Truncated {
            section: Section::Header,
            offset: 0
        })
    );
}

#[test]
fn header_parses_its_fields() {
    let bytes = make_header_bytes(3, 92, 60);
    let (h, end) = read_header(&bytes, 0).unwrap();
    assert_eq!(end, 92);
    assert_eq!(h.major_version, 1);
    assert_eq!(h.minor_version, 0);
    assert_eq!(h.index_major_version, 7);
    assert_eq!(h.index_entry_count, 3);
    assert_eq!(h.index_position, Position(92));
    assert_eq!(h.index_size, Size(60));
    assert_eq!(h.index_minor_version, None);
    assert!(!h.has_resource_id());
}

#[test]
fn header_reads_index_minor_version_only_past_minor_zero() {
    let mut bytes = make_header_bytes(0, 96, 0);
    bytes[8] = 1; // minor version 1: the field at offset 60 is present
    bytes[60] = 2; // index minor version 2
    bytes.extend_from_slice(&[0; 4]);
    let (h, end) = read_header(&bytes, 0).unwrap();
    assert_eq!(end, 96);
    assert_eq!(h.index_minor_version, Some(2));
    assert!(h.has_resource_id());
}

#[test]
fn header_default_is_supported_and_empty() {
    let h = Header::default();
    assert_eq!(h.major_version, 1);
    assert_eq!(h.index_major_version, 7);
    assert_eq!(h.index_entry_count, 0);
    assert_eq!(h.index_minor_version, None);
    assert!(!h.has_resource_id());
}

fn plain_key(code: u32, group: u32, instance: u32) -> Key {
    Key::new(
        TypeCode(code),
        GroupId(group),
        InstanceId(instance),
        None,
    )
}

#[test]
fn unknown_kind_entry_keeps_raw_bytes() {
    // One entry whose type code matches no registered kind; no directory.
    let payload = b"hello".to_vec();
    let mut bytes = make_header_bytes(1, 92, 20);
    // index record: key (12 bytes) + location + size
    push_u32(&mut bytes, 0x1234_5678);
    push_u32(&mut bytes, 1);
    push_u32(&mut bytes, 2);
    push_u32(&mut bytes, 112);
    push_u32(&mut bytes, payload.len() as u32);
    bytes.extend_from_slice(&payload);
    let archive = Dbpf::read(&bytes).unwrap();
    assert_eq!(archive.entries.len(), 1);
    let key = plain_key(0x1234_5678, 1, 2);
    let entry = archive.get(&key).unwrap();
    assert!(!entry.compressed);
    assert_eq!(entry.data, payload);
}

/// An archive with a directory entry and one compressed entry whose blob
/// decodes to eleven `A` bytes; `declared` is the size the directory
/// claims for it.
fn archive_with_compressed_entry(declared: u32, blob: Vec<u8>) -> Vec<u8> {
    let mut bytes = make_header_bytes(2, 92, 40);
    // record 0: the directory itself (16 bytes of payload: one record)
    push_u32(&mut bytes, 0xE86B_1EEF);
    push_u32(&mut bytes, 0);
    push_u32(&mut bytes, 0);
    push_u32(&mut bytes, 132); // 92 + 2 * 20
    push_u32(&mut bytes, 16);
    // record 1: the compressed entry
    push_u32(&mut bytes, 0x4243_4F4E);
    push_u32(&mut bytes, 1);
    push_u32(&mut bytes, 2);
    push_u32(&mut bytes, 148); // 132 + 16
    push_u32(&mut bytes, blob.len() as u32);
    // the directory resource: key + declared decompressed size
    push_u32(&mut bytes, 0x4243_4F4E);
    push_u32(&mut bytes, 1);
    push_u32(&mut bytes, 2);
    push_u32(&mut bytes, declared);
    // the compressed blob
    bytes.extend_from_slice(&blob);
    bytes
}

/// A blob of `total` bytes whose stream is one literal `A` and a
/// back-reference of offset 1, length 10: eleven `A` bytes.
fn eleven_a_blob() -> Vec<u8> {
    vec![
        0x0C, 0x00, 0x00, 0x00, // total length 12
        0x10, 0xFB, // magic
        0x00, 0x00, 0x0B, // uncompressed length 11
        0x1D, 0x00, 0x41, // the control stream
    ]
}

#[test]
fn directory_entry_decompresses_to_declared_size() {
    let bytes = archive_with_compressed_entry(11, eleven_a_blob());
    let archive = Dbpf::read(&bytes).unwrap();
    assert_eq!(archive.entries.len(), 2);
    let key = plain_key(0x4243_4F4E, 1, 2);
    let entry = archive.get(&key).unwrap();
    assert!(entry.compressed);
    assert_eq!(entry.data, vec![0x41; 11]);
}

#[test]
fn directory_size_mismatch_is_rejected() {
    // The directory declares 12 bytes; the blob decodes to 11.
    let bytes = archive_with_compressed_entry(12, eleven_a_blob());
    assert_eq!(Dbpf::read(&bytes), Err(DbpfError::SizeMismatch));
}

#[test]
fn truncated_compressed_entry_is_rejected() {
    // The blob's own header declares 11 bytes but its stream carries one.
    let blob: Vec<u8> = vec![
        0x0B, 0x00, 0x00, 0x00, 0x10, 0xFB, 0x00, 0x00, 0x0B, 0xFD, 0x41,
    ];
    let bytes = archive_with_compressed_entry(11, blob);
    assert_eq!(Dbpf::read(&bytes), Err(DbpfError::SizeMismatch));
}

#[test]
fn listed_entry_without_blob_magic_is_rejected() {
    let blob = b"plain stored bytes".to_vec();
    let bytes = archive_with_compressed_entry(11, blob);
    assert_eq!(Dbpf::read(&bytes), Err(DbpfError::NotCompressed));
}

#[test]
fn out_of_bounds_backref_in_entry_is_rejected() {
    // Total 11, uncompressed 3, stream opens with a back-reference of
    // offset 2 before anything was written.
    let blob: Vec<u8> = vec![
        0x0B, 0x00, 0x00, 0x00, 0x10, 0xFB, 0x00, 0x00, 0x03, 0x00, 0x01,
    ];
    let bytes = archive_with_compressed_entry(3, blob);
    assert_eq!(Dbpf::read(&bytes), Err(DbpfError::DecompressionBounds));
}

#[test]
fn entry_past_end_of_stream_is_rejected() {
    let mut bytes = make_header_bytes(1, 92, 20);
    push_u32(&mut bytes, 0x1234_5678);
    push_u32(&mut bytes, 1);
    push_u32(&mut bytes, 2);
    push_u32(&mut bytes, 500);
    push_u32(&mut bytes, 10);
    assert_eq!(
        Dbpf::read(&bytes),
        Err(DbpfError::Truncated {
            section: Section::Entry,
            offset: 500
        })
    );
}

#[test]
fn index_table_past_end_of_stream_is_rejected() {
    let bytes = make_header_bytes(4, 92, 80);
    assert_eq!(
        Dbpf::read(&bytes),
        Err(DbpfError::Truncated {
            section: Section::IndexTable,
            offset: 92
        })
    );
}

#[test]
fn duplicate_keys_resolve_to_the_last_entry() {
    let t = IndexTable {
        table: vec![
            (
                plain_key(1, 2, 3),
                index_table::Entry {
                    location: Position(10),
                    size: Size(1),
                },
            ),
            (
                plain_key(1, 2, 3),
                index_table::Entry {
                    location: Position(20),
                    size: Size(2),
                },
            ),
        ],
    };
    let e = t.get(&plain_key(1, 2, 3)).unwrap();
    assert_eq!(e.location, Position(20));
    assert!(t.get(&plain_key(9, 9, 9)).is_none());
}

#[test]
fn index_table_round_trips_through_bytes() {
    let t = IndexTable {
        table: vec![
            (
                plain_key(0x4243_4F4E, 7, 8),
                index_table::Entry {
                    location: Position(100),
                    size: Size(50),
                },
            ),
            (
                plain_key(0x1234_5678, 9, 10),
                index_table::Entry {
                    location: Position(150),
                    size: Size(60),
                },
            ),
        ],
    };
    let mut bytes: Vec<u8> = Vec::new();
    write_index_table(&t, false, &mut bytes);
    assert_eq!(bytes.len(), 40);
    let back = read_index_table(&bytes, 0, false, 2).unwrap();
    assert_eq!(back, t);
}

#[test]
fn simple_test() {
    let key = Key::new(
        TypeCode(0),
        GroupId(1),
        InstanceId(2),
        Some(ResourceId(3)),
    );
    let key2 = Key::new(
        TypeCode(0),
        GroupId(2),
        InstanceId(2),
        Some(ResourceId(3)),
    );
    let dir_entry = directory::Entry {
        decompressed_size: Size(8),
    };
    let in_dir = Dir {
        table: vec![(key, dir_entry), (key2, dir_entry)],
    };
    let mut writer: Vec<u8> = Vec::new();
    let num_files = in_dir.table.len();
    write_directory(&in_dir, true, &mut writer);
    let out = read_directory(&writer, 0, true, num_files as u32).unwrap();
    assert_eq!(in_dir, out);
}

#[test]
fn directory_lookup_finds_declared_sizes() {
    let d = Dir {
        table: vec![
            (
                plain_key(5, 6, 7),
                directory::Entry {
                    decompressed_size: Size(42),
                },
            ),
        ],
    };
    assert_eq!(d.get(&plain_key(5, 6, 7)), Some(Size(42)));
    assert_eq!(d.get(&plain_key(5, 6, 8)), None);
}

#[test]
fn error_messages_are_short_descriptions() {
    assert!(!DbpfError::NotSims2Format.message().is_empty());
    assert!(!DbpfError::SizeMismatch.message().is_empty());
}

#[test]
fn empty_archive_loads_with_no_entries() {
    let bytes = make_header_bytes(0, 92, 0);
    let archive = Dbpf::read(&bytes).unwrap();
    assert_eq!(archive.entries.len(), 0);
    assert!(archive.get(&plain_key(1, 2, 3)).is_none());
}

#[test]
fn duplicate_archive_keys_resolve_to_the_last_entry() {
    let mut bytes = make_header_bytes(2, 92, 40);
    push_u32(&mut bytes, 0x1234_5678);
    push_u32(&mut bytes, 1);
    push_u32(&mut bytes, 2);
    push_u32(&mut bytes, 132);
    push_u32(&mut bytes, 3);
    push_u32(&mut bytes, 0x1234_5678);
    push_u32(&mut bytes, 1);
    push_u32(&mut bytes, 2);
    push_u32(&mut bytes, 135);
    push_u32(&mut bytes, 3);
    bytes.extend_from_slice(b"oldnew");
    let archive = Dbpf::read(&bytes).unwrap();
    assert_eq!(archive.entries.len(), 2);
    let entry = archive.get(&plain_key(0x1234_5678, 1, 2)).unwrap();
    assert_eq!(entry.data, b"new".to_vec());
}

#[test]
fn uncompressed_entries_pass_through_beside_compressed_ones() {
    // Three records: the directory, one compressed entry, one raw entry
    // the directory does not list.
    let blob = eleven_a_blob();
    let mut bytes = make_header_bytes(3, 92, 60);
    // record 0: the directory, one record of 16 bytes at 152
    push_u32(&mut bytes, 0xE86B_1EEF);
    push_u32(&mut bytes, 0);
    push_u32(&mut bytes, 0);
    push_u32(&mut bytes, 152); // 92 + 3 * 20
    push_u32(&mut bytes, 16);
    // record 1: the compressed entry at 168
    push_u32(&mut bytes, 0x4243_4F4E);
    push_u32(&mut bytes, 1);
    push_u32(&mut bytes, 2);
    push_u32(&mut bytes, 168);
    push_u32(&mut bytes, blob.len() as u32);
    // record 2: a raw entry at 180
    push_u32(&mut bytes, 0x4248_4156);
    push_u32(&mut bytes, 3);
    push_u32(&mut bytes, 4);
    push_u32(&mut bytes, 180);
    push_u32(&mut bytes, 4);
    // the directory resource
    push_u32(&mut bytes, 0x4243_4F4E);
    push_u32(&mut bytes, 1);
    push_u32(&mut bytes, 2);
    push_u32(&mut bytes, 11);
    // the compressed blob, then the raw payload
    bytes.extend_from_slice(&blob);
    bytes.extend_from_slice(b"guts");
    let archive = Dbpf::read(&bytes).unwrap();
    assert_eq!(archive.entries.len(), 3);
    let compressed = archive.get(&plain_key(0x4243_4F4E, 1, 2)).unwrap();
    assert!(compressed.compressed);
    assert_eq!(compressed.data, vec![0x41; 11]);
    let raw = archive.get(&plain_key(0x4248_4156, 3, 4)).unwrap();
    assert!(!raw.compressed);
    assert_eq!(raw.data, b"guts".to_vec());
    let dir = archive.get(&plain_key(0xE86B_1EEF, 0, 0)).unwrap();
    assert!(!dir.compressed);
    assert_eq!(dir.data.len(), 16);
}

/// A preamble with minor version 1 and index minor version 2: 96 bytes,
/// every key carries a resource id.
fn make_header_bytes_with_resource(count: u32, index_pos: u32, index_size: u32) -> Vec<u8> {
    let mut h = Vec::new();
    h.extend_from_slice(b"DBPF");
    push_u32(&mut h, 1);
    push_u32(&mut h, 1); // minor version 1: the index minor version is stored
    h.extend_from_slice(&[0; 20]);
    push_u32(&mut h, 7);
    push_u32(&mut h, count);
    push_u32(&mut h, index_pos);
    push_u32(&mut h, index_size);
    h.extend_from_slice(&[0; 12]);
    push_u32(&mut h, 2); // index minor version 2: keys carry resource ids
    h.extend_from_slice(&[0; 32]);
    assert_eq!(h.len(), 96);
    h
}

#[test]
fn resource_id_flag_governs_every_key_of_the_archive() {
    // One compressed entry in an archive whose keys carry resource ids:
    // 24-byte index records, 20-byte directory records.
    let blob = eleven_a_blob();
    let mut bytes = make_header_bytes_with_resource(2, 96, 48);
    // record 0: the directory
    push_u32(&mut bytes, 0xE86B_1EEF);
    push_u32(&mut bytes, 0);
    push_u32(&mut bytes, 0);
    push_u32(&mut bytes, 0);
    push_u32(&mut bytes, 144); // 96 + 2 * 24
    push_u32(&mut bytes, 20);
    // record 1: the compressed entry
    push_u32(&mut bytes, 0x4243_4F4E);
    push_u32(&mut bytes, 1);
    push_u32(&mut bytes, 2);
    push_u32(&mut bytes, 9);
    push_u32(&mut bytes, 164); // 144 + 20
    push_u32(&mut bytes, blob.len() as u32);
    // the directory resource: a 16-byte key and the declared size
    push_u32(&mut bytes, 0x4243_4F4E);
    push_u32(&mut bytes, 1);
    push_u32(&mut bytes, 2);
    push_u32(&mut bytes, 9);
    push_u32(&mut bytes, 11);
    bytes.extend_from_slice(&blob);
    let archive = Dbpf::read(&bytes).unwrap();
    assert!(archive.header.has_resource_id());
    assert_eq!(archive.entries.len(), 2);
    let key = Key::new(
        TypeCode(0x4243_4F4E),
        GroupId(1),
        InstanceId(2),
        Some(ResourceId(9)),
    );
    let entry = archive.get(&key).unwrap();
    assert!(entry.compressed);
    assert_eq!(entry.data, vec![0x41; 11]);
    // the same fields without the resource id are a different key
    assert!(archive.get(&plain_key(0x4243_4F4E, 1, 2)).is_none());
}

#[test]
fn directory_listing_itself_is_rejected() {
    // One index record: the directory, whose single record lists the
    // directory's own key as compressed.
    let mut bytes = make_header_bytes(1, 92, 20);
    push_u32(&mut bytes, 0xE86B_1EEF);
    push_u32(&mut bytes, 0);
    push_u32(&mut bytes, 0);
    push_u32(&mut bytes, 112); // 92 + 20
    push_u32(&mut bytes, 16);
    // the directory resource: its own key and a claimed size
    push_u32(&mut bytes, 0xE86B_1EEF);
    push_u32(&mut bytes, 0);
    push_u32(&mut bytes, 0);
    push_u32(&mut bytes, 40);
    assert_eq!(Dbpf::read(&bytes), Err(DbpfError::CompressedDirectory));
}
