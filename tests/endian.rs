use openttd_savegame::endian::BigEndianReader;
use openttd_savegame::error::CoreError;

#[test]
fn reads_each_width_big_endian() {
    let buf = [
        0xFF, 0x12, 0x34, 0xFF, 0xFE, 0x01, 0x02, 0x03, 0xDE, 0xAD, 0xBE, 0xEF, 0xFF, 0xFF, 0xFF,
        0xFE, 0x01, 0x02, 0x03, 0x04, 0x05, 0x06, 0x07, 0x08, 0xFF, 0xFF, 0xFF, 0xFF, 0xFF, 0xFF,
        0xFF, 0xFD,
    ];
    let mut r = BigEndianReader::new(&buf);
    assert_eq!(r.read_i8().unwrap(), -1);
    assert_eq!(r.read_u16().unwrap(), 0x1234);
    assert_eq!(r.read_i16().unwrap(), -2);
    assert_eq!(r.read_u24().unwrap(), 0x010203);
    assert_eq!(r.read_u32().unwrap(), 0xDEADBEEF);
    assert_eq!(r.read_i32().unwrap(), -2);
    assert_eq!(r.read_u64().unwrap(), 0x0102030405060708);
    assert_eq!(r.read_i64().unwrap(), -3);
    assert_eq!(r.position(), buf.len());
    assert_eq!(r.remaining(), 0);
}

#[test]
fn read_past_end_fails_and_keeps_position() {
    let buf = [0x01, 0x02, 0x03];
    let mut r = BigEndianReader::new(&buf);
    assert_eq!(r.read_u8().unwrap(), 1);
    assert!(matches!(r.read_u32(), Err(CoreError::UnexpectedEof)));
    assert_eq!(r.position(), 1);
    assert_eq!(r.remaining(), 2);
    assert!(matches!(r.read_u24(), Err(CoreError::UnexpectedEof)));
    assert_eq!(r.read_exact::<2>().unwrap(), [0x02, 0x03]);
    assert!(matches!(r.read_u8(), Err(CoreError::UnexpectedEof)));
    assert!(matches!(r.read_i8(), Err(CoreError::UnexpectedEof)));
}

#[test]
fn empty_reader_has_nothing_left() {
    let buf: [u8; 0] = [];
    let mut r = BigEndianReader::new(&buf);
    assert_eq!(r.remaining(), 0);
    assert!(matches!(r.read_u16(), Err(CoreError::UnexpectedEof)));
    assert!(matches!(r.read_exact::<1>(), Err(CoreError::UnexpectedEof)));
}
