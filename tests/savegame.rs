use openttd_savegame::error::CoreError;
use openttd_savegame::header::SavegameError as HeaderError;
use openttd_savegame::chunk::ChunkType;
use openttd_savegame::savegame::{ChunkData, SavegameError, SavegameReader, SavegameWriter};
use openttd_savegame::types::CompressionType;

#[test]
fn test_round_trip() {
    let mut writer = SavegameWriter::new(295, CompressionType::Uncompressed);
    writer.add_riff_chunk(b"TEST", b"Hello, World!").unwrap();
    let data = writer.finalize().unwrap();

    let reader = SavegameReader::new(&data).unwrap();
    assert_eq!(reader.header().version, 295);
    assert_eq!(reader.header().compression, CompressionType::Uncompressed);

    let chunks = reader.read_chunks().unwrap();
    assert_eq!(chunks.len(), 1);
    assert_eq!(chunks[0].tag, "TEST");

    match &chunks[0].data {
        ChunkData::Riff(data) => {
            assert_eq!(data, b"Hello, World!");
        }
        _ => panic!("Expected RIFF chunk"),
    }
}

#[test]
fn test_compressed_round_trip() {
    let mut writer = SavegameWriter::new(295, CompressionType::Zlib);
    writer.add_riff_chunk(b"DATA", b"Compressed data test").unwrap();
    let data = writer.finalize().unwrap();

    assert_eq!(&data[0..4], b"OTTZ");

    let reader = SavegameReader::new(&data).unwrap();
    assert_eq!(reader.header().compression, CompressionType::Zlib);

    let chunks = reader.read_chunks().unwrap();
    assert_eq!(chunks.len(), 1);

    match &chunks[0].data {
        ChunkData::Riff(data) => {
            assert_eq!(data, b"Compressed data test");
        }
        _ => panic!("Expected RIFF chunk"),
    }
}

#[test]
fn test_create_and_read_savegame() {
    let mut writer = SavegameWriter::new(295, CompressionType::Zlib);
    writer.add_riff_chunk(b"MAPS", b"Map data here").unwrap();
    writer.add_riff_chunk(b"PLYR", b"Player data").unwrap();
    writer.add_riff_chunk(b"VEHS", b"Vehicle data").unwrap();
    let data = writer.finalize().unwrap();

    let reader = SavegameReader::new(&data).unwrap();
    assert_eq!(reader.header().version, 295);
    assert_eq!(reader.header().compression, CompressionType::Zlib);

    let chunks = reader.read_chunks().unwrap();
    assert_eq!(chunks.len(), 3);
    assert_eq!(chunks[0].tag, "MAPS");
    assert_eq!(chunks[1].tag, "PLYR");
    assert_eq!(chunks[2].tag, "VEHS");
}

#[test]
fn uncompressed_file_layout_is_exact() {
    let mut writer = SavegameWriter::new(0x0127, CompressionType::Uncompressed);
    writer.add_riff_chunk(b"TEST", b"ab").unwrap();
    let data = writer.finalize().unwrap();
    let mut expected = Vec::new();
    expected.extend_from_slice(b"OTTN\x01\x27\x00\x00");
    expected.extend_from_slice(b"TEST\x00\x00\x00\x02ab");
    expected.extend_from_slice(&[0, 0, 0, 0, 0]);
    assert_eq!(data, expected);
}

#[test]
fn zlib_output_differs_from_stream() {
    let mut writer = SavegameWriter::new(1, CompressionType::Zlib);
    writer.add_riff_chunk(b"TEST", b"ab").unwrap();
    let data = writer.finalize().unwrap();
    assert_eq!(&data[0..8], b"OTTZ\x00\x01\x00\x00");
    assert_ne!(&data[8..], b"TEST\x00\x00\x00\x02ab\x00\x00\x00\x00\x00");
}

#[test]
fn lzma_round_trip() {
    let mut writer = SavegameWriter::new(300, CompressionType::Lzma);
    writer.add_riff_chunk(b"MAPS", b"xz packed").unwrap();
    let data = writer.finalize().unwrap();
    assert_eq!(&data[0..4], b"OTTX");
    let reader = SavegameReader::new(&data).unwrap();
    let chunks = reader.read_chunks().unwrap();
    assert_eq!(chunks.len(), 1);
    assert_eq!(chunks[0].tag, "MAPS");
    assert!(matches!(&chunks[0].data, ChunkData::Riff(d) if d == b"xz packed"));
}

#[test]
fn lzo_is_unsupported_both_ways() {
    let writer = SavegameWriter::new(1, CompressionType::Lzo);
    assert!(matches!(
        writer.finalize(),
        Err(SavegameError::UnsupportedCompression(CompressionType::Lzo))
    ));
    let file = b"OTTD\x00\x01\x00\x00\x00\x00\x00\x00\x00";
    assert!(matches!(
        SavegameReader::new(file),
        Err(SavegameError::UnsupportedCompression(CompressionType::Lzo))
    ));
}

#[test]
fn bad_magic_is_a_header_error() {
    assert!(matches!(SavegameReader::new(b"NOPE\x00\x01\x00\x00"), Err(SavegameError::Header(_))));
}

#[test]
fn corrupt_zlib_payload_fails() {
    assert!(matches!(
        SavegameReader::new(b"OTTZ\x00\x01\x00\x00garbage"),
        Err(SavegameError::Io(_))
    ));
}

#[test]
fn truncated_tail_ends_chunks_quietly() {
    let file = b"OTTNxxxxTEST\x00\x00\x00\x01Z\x00\x00";
    let reader = SavegameReader::new(file).unwrap();
    let chunks = reader.read_chunks().unwrap();
    assert_eq!(chunks.len(), 1);
    assert_eq!(chunks[0].chunk_type, ChunkType::Riff);
}

#[test]
fn sparse_array_chunk_in_stream() {
    let mut file = Vec::new();
    file.extend_from_slice(b"OTTN\x00\x01\x00\x00");
    file.extend_from_slice(b"SPRS\x02");
    file.extend_from_slice(&[3, 5, 0xAA, 0xBB, 2, 2, 0xCC, 0]);
    file.extend_from_slice(&[0, 0, 0, 0, 0]);
    let chunks = SavegameReader::new(&file).unwrap().read_chunks().unwrap();
    assert_eq!(chunks.len(), 1);
    assert_eq!(chunks[0].chunk_type, ChunkType::SparseArray);
    match &chunks[0].data {
        ChunkData::Array(items) => {
            let indices: Vec<usize> = items.iter().map(|p| p.0).collect();
            assert_eq!(indices, vec![5, 2]);
        }
        _ => panic!("Expected array chunk"),
    }
}

#[test]
fn bad_chunk_type_in_stream_fails() {
    let file = b"OTTN\x00\x01\x00\x00MAPS\x0F\x00\x00\x00";
    let reader = SavegameReader::new(file).unwrap();
    assert!(matches!(reader.read_chunks(), Err(SavegameError::Core(_))));
}

#[test]
fn short_file_and_unknown_magic_errors() {
    match SavegameReader::new(b"NOPE\x00\x01\x00\x00") {
        Err(SavegameError::Header(HeaderError::InvalidMagic(m))) => assert_eq!(m, "NOPE"),
        _ => panic!("expected an invalid magic"),
    }
    assert!(matches!(
        SavegameReader::new(b"OTTN\x00"),
        Err(SavegameError::Header(HeaderError::Core(CoreError::UnexpectedEof)))
    ));
}

#[test]
fn lzma_file_starts_with_its_header() {
    let mut writer = SavegameWriter::new(295, CompressionType::Lzma);
    writer.add_riff_chunk(b"TEST", b"Hello, World!").unwrap();
    let data = writer.finalize().unwrap();
    assert_eq!(&data[0..8], b"OTTX\x01\x27\x00\x00");
}

#[test]
fn xz_payload_with_four_ff_bytes_is_refused() {
    let mut file = Vec::new();
    file.extend_from_slice(b"OTTX\x00\x01\x00\x00");
    file.extend_from_slice(&[0xFD, b'7', b'z', b'X', b'Z', 0x00, 0x00, 0x00]);
    file.extend_from_slice(&[0x00, 0x00, 0x00, 0x00, 0x00, 0xFF, 0xFF, 0xFF, 0xFF, 0x00, 0x00]);
    assert!(matches!(SavegameReader::new(&file), Err(SavegameError::UnreadableXz)));
}

#[test]
fn corrupt_xz_payload_fails() {
    assert!(matches!(
        SavegameReader::new(b"OTTX\x00\x01\x00\x00garbage"),
        Err(SavegameError::Lzma(_))
    ));
}
