use openttd_savegame::chunk::{
    parse_array_chunk, parse_riff_chunk, parse_table_chunk, ChunkHeader, ChunkType, DataType,
    TableHeader,
};
use openttd_savegame::error::CoreError;

#[test]
fn test_chunk_header_parse() {
    let buf = b"MAPS\x00additional_data";
    let (header, bytes_read) = ChunkHeader::parse(buf).unwrap();
    assert_eq!(header.tag, *b"MAPS");
    assert_eq!(header.chunk_type, ChunkType::Riff);
    assert_eq!(bytes_read, 5);
    assert_eq!(header.tag_string(), "MAPS");
}

#[test]
fn test_end_marker() {
    let buf = b"\x00\x00\x00\x00\x00";
    let (header, _) = ChunkHeader::parse(buf).unwrap();
    assert!(header.is_end_marker());
}

#[test]
fn test_chunk_types() {
    assert_eq!(ChunkType::try_from(0).unwrap(), ChunkType::Riff);
    assert_eq!(ChunkType::try_from(1).unwrap(), ChunkType::Array);
    assert_eq!(ChunkType::try_from(2).unwrap(), ChunkType::SparseArray);
    assert_eq!(ChunkType::try_from(3).unwrap(), ChunkType::Table);
    assert_eq!(ChunkType::try_from(4).unwrap(), ChunkType::SparseTable);
    assert!(ChunkType::try_from(15).is_err());
}

#[test]
fn test_data_types() {
    assert_eq!(DataType::try_from(1).unwrap(), DataType::I8);
    assert_eq!(DataType::try_from(2).unwrap(), DataType::U8);
    assert_eq!(DataType::try_from(10).unwrap(), DataType::String);
    assert_eq!(DataType::try_from(11).unwrap(), DataType::Struct);
    assert!(DataType::try_from(0).is_err());
    assert!(DataType::try_from(12).is_err());
}

#[test]
fn chunk_type_uses_low_nibble_only() {
    assert_eq!(ChunkType::from_mode_byte(0x32), Some(ChunkType::SparseArray));
    assert_eq!(ChunkType::from_mode_byte(0xF0), Some(ChunkType::Riff));
    for n in 5u8..=15 {
        assert_eq!(ChunkType::from_mode_byte(n), None);
    }
}

#[test]
fn chunk_header_rejects_unknown_type() {
    assert!(matches!(ChunkHeader::parse(b"MAPS\x0F"), Err(CoreError::InvalidData(_))));
    assert!(matches!(ChunkHeader::parse(b"MAPS\x05"), Err(CoreError::InvalidData(_))));
}

#[test]
fn chunk_header_needs_five_bytes() {
    assert!(matches!(ChunkHeader::parse(b"MAPS"), Err(CoreError::UnexpectedEof)));
    assert!(matches!(ChunkHeader::parse(b"\x00\x00\x00\x00"), Err(CoreError::UnexpectedEof)));
}

#[test]
fn chunk_header_keeps_mode_byte() {
    let (header, n) = ChunkHeader::parse(b"PLYR\x13").unwrap();
    assert_eq!(header.chunk_type, ChunkType::Table);
    assert_eq!(header.mode_byte, 0x13);
    assert_eq!(n, 5);
    assert!(!header.is_end_marker());
}

#[test]
fn riff_length_takes_high_bits_from_mode_byte() {
    let header = ChunkHeader { tag: *b"TEST", chunk_type: ChunkType::Riff, mode_byte: 0x00 };
    let (data, n) = parse_riff_chunk(&header, &[0x00, 0x00, 0x03, 7, 8, 9, 10]).unwrap();
    assert_eq!(data, vec![7, 8, 9]);
    assert_eq!(n, 6);

    let big = ChunkHeader { tag: *b"TEST", chunk_type: ChunkType::Riff, mode_byte: 0x10 };
    assert!(matches!(
        parse_riff_chunk(&big, &[0x00, 0x00, 0x03, 7, 8, 9]),
        Err(CoreError::UnexpectedEof)
    ));
}

#[test]
fn riff_truncated_body_fails() {
    let header = ChunkHeader { tag: *b"TEST", chunk_type: ChunkType::Riff, mode_byte: 0x00 };
    assert!(matches!(
        parse_riff_chunk(&header, &[0x00, 0x00, 0x04, 1, 2]),
        Err(CoreError::UnexpectedEof)
    ));
    assert!(matches!(parse_riff_chunk(&header, &[0x00, 0x00]), Err(CoreError::UnexpectedEof)));
}

#[test]
fn sparse_array_keeps_file_order_of_indices() {
    let header = ChunkHeader { tag: *b"SPRS", chunk_type: ChunkType::SparseArray, mode_byte: 2 };
    // size 2 at index 5, size 1 at index 2, end.
    let buf = [3, 5, 0xAA, 0xBB, 2, 2, 0xCC, 0];
    let (items, n) = parse_array_chunk(&header, &buf).unwrap();
    assert_eq!(items, vec![(5, vec![0xAA, 0xBB]), (2, vec![0xCC])]);
    assert_eq!(n, buf.len());
}

#[test]
fn array_counts_indices_and_skips_empty_records() {
    let header = ChunkHeader { tag: *b"ARRY", chunk_type: ChunkType::Array, mode_byte: 1 };
    // record of 1 byte, an empty record, record of 1 byte, end.
    let buf = [0x02, 0xAA, 0x01, 0x02, 0xBB, 0x00];
    let (items, n) = parse_array_chunk(&header, &buf).unwrap();
    assert_eq!(items, vec![(0, vec![0xAA]), (2, vec![0xBB])]);
    assert_eq!(n, 6);
}

#[test]
fn array_without_end_fails() {
    let header = ChunkHeader { tag: *b"ARRY", chunk_type: ChunkType::Array, mode_byte: 1 };
    assert!(matches!(parse_array_chunk(&header, &[2, 0x11]), Err(CoreError::UnexpectedEof)));
    assert!(matches!(parse_array_chunk(&header, &[3, 0x11]), Err(CoreError::UnexpectedEof)));
}

#[test]
fn table_header_reads_fields_in_order() {
    // size+1 = 10: fields "ab" (U16) and list "c" (I8).
    let buf = [10, 0x04, 2, b'a', b'b', 0x11, 1, b'c', 0, 0xEE];
    let (header, n) = TableHeader::parse(&buf).unwrap();
    assert_eq!(header.fields.len(), 2);
    assert_eq!(header.fields[0].data_type, DataType::U16);
    assert_eq!(header.fields[0].key, "ab");
    assert!(!header.fields[0].is_list);
    assert_eq!(header.fields[1].data_type, DataType::I8);
    assert_eq!(header.fields[1].key, "c");
    assert!(header.fields[1].is_list);
    assert_eq!(n, 9);
}

#[test]
fn table_header_stops_at_declared_size() {
    // size+1 = 5: one field "ab", then the declared end.
    let buf = [5, 0x02, 2, b'a', b'b', 0x05, 1, b'z'];
    let (header, n) = TableHeader::parse(&buf).unwrap();
    assert_eq!(header.fields.len(), 1);
    assert_eq!(header.fields[0].data_type, DataType::U8);
    assert_eq!(n, 5);
}

#[test]
fn table_header_errors() {
    assert!(matches!(TableHeader::parse(&[0]), Err(CoreError::InvalidData(_))));
    assert!(matches!(TableHeader::parse(&[5, 0x0C, 0]), Err(CoreError::InvalidData(_))));
    assert!(matches!(TableHeader::parse(&[5, 0x01, 2, 0xFF, 0xFE]), Err(CoreError::InvalidData(_))));
    assert!(matches!(TableHeader::parse(&[5, 0x01, 4, b'a']), Err(CoreError::UnexpectedEof)));
    assert!(matches!(TableHeader::parse(&[9, 0x01]), Err(CoreError::UnexpectedEof)));
    assert!(matches!(TableHeader::parse(&[]), Err(CoreError::UnexpectedEof)));
}

#[test]
fn sparse_table_reads_header_then_records() {
    let header = ChunkHeader { tag: *b"TABL", chunk_type: ChunkType::SparseTable, mode_byte: 4 };
    let buf = [5, 0x06, 1, b'x', 0, 3, 7, 1, 2, 1, 9, 0];
    let (table, records, n) = parse_table_chunk(&header, &buf).unwrap();
    assert_eq!(table.fields.len(), 1);
    assert_eq!(table.fields[0].data_type, DataType::U32);
    assert_eq!(records, vec![(7, vec![1, 2])]);
    assert_eq!(n, buf.len());
}

#[test]
fn table_counts_implicit_indices() {
    let header = ChunkHeader { tag: *b"TABL", chunk_type: ChunkType::Table, mode_byte: 3 };
    let buf = [1, 2, 0xA1, 2, 0xA2, 0];
    let (table, records, n) = parse_table_chunk(&header, &buf).unwrap();
    assert!(table.fields.is_empty());
    assert_eq!(records, vec![(0, vec![0xA1]), (1, vec![0xA2])]);
    assert_eq!(n, 6);
}
