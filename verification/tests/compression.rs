use s2_dbpf::bytes::U24;
use s2_dbpf::compression::CompressedFile;
use s2_dbpf::compression::CompressionError;
use s2_dbpf::compression::CompressionHeader;
use s2_dbpf::compression::Control;
use s2_dbpf::compression::ControlRange;
use s2_dbpf::compression::DecompressionError;
use s2_dbpf::compression::decompress_stream;
use s2_dbpf::compression::read_control;
use s2_dbpf::compression::write_control;

#[test]
fn decompression_yields_correct_data() {
    let data: Vec<u8> = vec![
        0x30, 0x00, 0x00, 0x00, 0x10, 0xFB, 0x00, 0x01, 0x40, 0xE3, 0x53, 0x65, 0x6D, 0x69, 0x2D,
        0x67, 0x6C, 0x6F, 0x62, 0x61, 0x6C, 0x20, 0x66, 0x69, 0x6C, 0x65, 0xAB, 0x40, 0x00, 0x00,
        0xE1, 0x0D, 0x50, 0x65, 0x72, 0x73, 0x6F, 0x6E, 0x47, 0x08, 0x41, 0xC2, 0x00, 0x00, 0xEC,
        0x73, 0xA3, 0xFC,
    ];
    let compressed = CompressedFile::try_from_bytes(&data).unwrap();
    let decompressed = compressed.decompress().unwrap();
    let mut expected: Vec<u8> = Vec::new();
    expected.extend_from_slice(b"Semi-global file");
    expected.extend_from_slice(&[0x00; 48]);
    expected.extend_from_slice(b"\x0DPersonG");
    expected.extend_from_slice(b"lobal");
    expected.push(0x73);
    expected.extend_from_slice(&[0xA3; 242]);
    assert_eq!(expected.len(), 320);
    assert_eq!(decompressed, expected);
}

#[test]
fn overlapping_self_copy_repeats_pattern() {
    // A two-byte control carrying one literal `A` and a back-reference of
    // offset 1, length 10: each copied byte reads the byte just written.
    let stream: Vec<u8> = vec![0x1D, 0x00, 0x41];
    let out = decompress_stream(&stream, 11).unwrap();
    assert_eq!(out, vec![0x41; 11]);
}

#[test]
fn offset_before_start_is_rejected() {
    // Offset 2 with nothing written yet: must fail, not read before the
    // start of the buffer.
    let stream: Vec<u8> = vec![0x00, 0x01];
    assert_eq!(
        decompress_stream(&stream, 3),
        Err(DecompressionError::OutOfBounds)
    );
}

#[test]
fn stream_ending_inside_control_is_truncated() {
    // 0x80 opens a three-byte control; only one byte is present.
    let stream: Vec<u8> = vec![0x80];
    assert_eq!(
        decompress_stream(&stream, 5),
        Err(DecompressionError::Truncated)
    );
}

#[test]
fn short_output_is_size_mismatch() {
    // One literal where five bytes were declared.
    let stream: Vec<u8> = vec![0xFD, 0x41];
    assert_eq!(
        decompress_stream(&stream, 5),
        Err(DecompressionError::SizeMismatch)
    );
}

#[test]
fn overlong_output_is_size_mismatch() {
    // Three literals where two bytes were declared.
    let stream: Vec<u8> = vec![0xFF, 0x41, 0x42, 0x43];
    assert_eq!(
        decompress_stream(&stream, 2),
        Err(DecompressionError::SizeMismatch)
    );
}

#[test]
fn compression_is_symmetrical() {
    let test_vec =
        b"This is a test vector with a repeated phrase! This is a test vector with a repeated phrase!"
            .to_vec();
    let compressed = CompressedFile::compress(&test_vec).unwrap();
    let decompressed = compressed.decompress().unwrap();
    assert_eq!(test_vec, decompressed);
}

#[test]
fn compress_round_trips_through_bytes() {
    let input = b"abcdefghijklmnopqrstuvwxyz0123456789".to_vec();
    let blob = CompressedFile::compress(&input).unwrap();
    let bytes = blob.to_bytes();
    let reread = CompressedFile::try_from_bytes(&bytes).unwrap();
    assert_eq!(reread, blob);
    assert_eq!(reread.decompress().unwrap(), input);
}

#[test]
fn compress_rejects_short_input() {
    assert_eq!(
        CompressedFile::compress(&vec![1, 2, 3]),
        Err(CompressionError::TooShort(3))
    );
}

#[test]
fn compress_rejects_already_compressed_input() {
    let input: Vec<u8> = vec![0x00, 0x00, 0x00, 0x00, 0x10, 0xFB, 0x01];
    assert_eq!(
        CompressedFile::compress(&input),
        Err(CompressionError::AlreadyCompressed)
    );
}

#[test]
fn compress_rejects_oversize_input() {
    let input: Vec<u8> = vec![7; 0x100_0000];
    assert_eq!(
        CompressedFile::compress(&input),
        Err(CompressionError::TooLarge(0x100_0000))
    );
}

#[test]
fn try_from_bytes_rejects_plain_data() {
    assert_eq!(
        CompressedFile::try_from_bytes(&b"plain bytes".to_vec()),
        Err(CompressionError::NotCompressed)
    );
    assert_eq!(
        CompressedFile::try_from_bytes(&vec![1, 2]),
        Err(CompressionError::TooShort(2))
    );
    // Magic present but the declared total length overruns the bytes.
    let short: Vec<u8> = vec![0xFF, 0x00, 0x00, 0x00, 0x10, 0xFB, 0x00, 0x00, 0x01];
    assert_eq!(
        CompressedFile::try_from_bytes(&short),
        Err(CompressionError::Truncated)
    );
}

#[test]
fn control_codes_parse_to_their_fields() {
    // The second control of the decompression test vector: a three-byte
    // code with one literal, offset 1, copy length 47.
    let data: Vec<u8> = vec![0xAB, 0x40, 0x00];
    let (c, next) = read_control(&data, 0).unwrap();
    assert_eq!(next, 3);
    assert_eq!(c.range, ControlRange::Second);
    assert_eq!(c.plaintext_copy, Some(1));
    assert_eq!(c.offset_copy, Some((1, 47)));

    // A one-byte literal-only code: 16 literals.
    let data2: Vec<u8> = vec![0xE3];
    let (c2, _) = read_control(&data2, 0).unwrap();
    assert_eq!(c2.range, ControlRange::Fourth);
    assert_eq!(c2.plaintext_copy, Some(16));
    assert_eq!(c2.offset_copy, None);
}

#[test]
fn control_write_then_read_gives_same_control() {
    let cases: Vec<Control> = vec![
        Control::new(Some((1, 10)), Some(3)),
        Control::new(Some((1023, 3)), Some(0)),
        Control::new(Some((16384, 67)), Some(2)),
        Control::new(Some((131072, 1028)), Some(1)),
        Control::new(None, Some(112)),
        Control::new(None, Some(4)),
        Control::new(None, Some(0)),
        Control::new(None, Some(3)),
    ];
    for c in cases {
        let mut bytes: Vec<u8> = Vec::new();
        write_control(&c, &mut bytes);
        let (back, width) = read_control(&bytes, 0).unwrap();
        assert_eq!(width, bytes.len());
        assert_eq!(back, c);
    }
}

#[test]
fn control_new_keeps_an_absent_literal_count() {
    let c = Control::new(Some((1024, 4)), None);
    assert_eq!(c.plaintext_copy, None);
    assert_eq!(c.offset_copy, Some((1024, 4)));
    // The bytes cannot tell an absent count from zero, so the decoder
    // hands back the same control with the count made explicit.
    let mut bytes: Vec<u8> = Vec::new();
    write_control(&c, &mut bytes);
    let (back, _) = read_control(&bytes, 0).unwrap();
    assert_eq!(back.range, c.range);
    assert_eq!(back.offset_copy, c.offset_copy);
    assert_eq!(back.plaintext_copy, Some(0));
}

#[test]
fn control_new_picks_narrowest_range() {
    assert_eq!(Control::new(Some((1, 10)), Some(0)).range, ControlRange::First);
    assert_eq!(Control::new(Some((1, 11)), Some(0)).range, ControlRange::Second);
    assert_eq!(Control::new(Some((1024, 4)), Some(0)).range, ControlRange::Second);
    assert_eq!(Control::new(Some((1, 68)), Some(0)).range, ControlRange::Third);
    assert_eq!(Control::new(Some((16384, 5)), Some(0)).range, ControlRange::Third);
    assert_eq!(Control::new(None, Some(4)).range, ControlRange::Fourth);
    assert_eq!(Control::new(None, Some(3)).range, ControlRange::Fifth);
}

#[test]
fn compressed_file_exposes_declared_size() {
    let f = CompressedFile {
        header: CompressionHeader {
            compressed_size: 9,
            uncompressed_size: U24(320),
        },
        data: Vec::new(),
    };
    assert_eq!(f.uncompressed_size(), 320);
}

#[test]
fn compression_errors_have_messages() {
    assert!(!CompressionError::AlreadyCompressed.message().is_empty());
    assert!(!CompressionError::TooShort(3).message().is_empty());
}

#[test]
fn compress_shrinks_repetitive_input() {
    let input: Vec<u8> = vec![0x55; 1000];
    let blob = CompressedFile::compress(&input).unwrap();
    let bytes = blob.to_bytes();
    assert!(bytes.len() < 100);
    assert_eq!(blob.decompress().unwrap(), input);

    let mut mixed: Vec<u8> = Vec::new();
    for _ in 0..8 {
        mixed.extend_from_slice(b"a phrase that repeats, ");
        mixed.extend_from_slice(&[0x00, 0x7F, 0xFE]);
    }
    let blob2 = CompressedFile::compress(&mixed).unwrap();
    assert!(blob2.to_bytes().len() < mixed.len());
    assert_eq!(blob2.decompress().unwrap(), mixed);
}
