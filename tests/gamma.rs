use openttd_savegame::error::CoreError;
use openttd_savegame::gamma::{decode_gamma, encode_gamma};

#[test]
fn test_gamma_single_byte() {
    for i in 0..=127u64 {
        let encoded = encode_gamma(i);
        assert_eq!(encoded.len(), 1);
        assert_eq!(encoded[0], i as u8);

        let (decoded, bytes_read) = decode_gamma(&encoded).unwrap();
        assert_eq!(decoded, i);
        assert_eq!(bytes_read, 1);
    }
}

#[test]
fn test_gamma_two_bytes() {
    let test_cases = vec![128u64, 255u64, 16383u64];
    for value in test_cases {
        let encoded = encode_gamma(value);
        assert_eq!(encoded.len(), 2);

        let (decoded, bytes_read) = decode_gamma(&encoded).unwrap();
        assert_eq!(decoded, value);
        assert_eq!(bytes_read, 2);
    }
}

#[test]
fn test_gamma_three_bytes() {
    let test_cases = vec![16384u64, 65536u64, 2097151u64];
    for value in test_cases {
        let encoded = encode_gamma(value);
        assert_eq!(encoded.len(), 3);

        let (decoded, bytes_read) = decode_gamma(&encoded).unwrap();
        assert_eq!(decoded, value);
        assert_eq!(bytes_read, 3);
    }
}

#[test]
fn test_gamma_round_trip() {
    let test_values = vec![
        0, 1, 127, 128, 255, 256, 16383, 16384, 65535, 65536, 1000000, 2097151, 2097152,
        268435455, 268435456,
    ];
    for value in test_values {
        let encoded = encode_gamma(value);
        let (decoded, _) = decode_gamma(&encoded).unwrap();
        assert_eq!(decoded, value, "Failed round-trip for value {}", value);
    }
}

#[test]
fn gamma_round_trip_reports_width() {
    let cases: Vec<(u64, usize)> = vec![
        (0, 1),
        (1, 1),
        (127, 1),
        (128, 2),
        (255, 2),
        (16383, 2),
        (16384, 3),
        (2097151, 3),
        (2097152, 4),
        (268435455, 4),
        (268435456, 5),
        (0xFFFF_FFFF, 5),
    ];
    for (value, width) in cases {
        let encoded = encode_gamma(value);
        assert_eq!(encoded.len(), width);
        assert_eq!(decode_gamma(&encoded).unwrap(), (value, width));
    }
}

#[test]
fn gamma_exact_bytes() {
    assert_eq!(encode_gamma(0x7F), vec![0x7F]);
    assert_eq!(encode_gamma(0x80), vec![0x80, 0x80]);
    assert_eq!(encode_gamma(0x3FFF), vec![0xBF, 0xFF]);
    assert_eq!(encode_gamma(0x4000), vec![0xC0, 0x40, 0x00]);
    assert_eq!(encode_gamma(0x12_3456), vec![0xD2, 0x34, 0x56]);
    assert_eq!(encode_gamma(0x123_4567), vec![0xE1, 0x23, 0x45, 0x67]);
    assert_eq!(encode_gamma(0x1234_5678), vec![0xF0, 0x12, 0x34, 0x56, 0x78]);
}

#[test]
fn gamma_five_byte_code_uses_low_bits_of_first_byte() {
    assert_eq!(
        decode_gamma(&[0xF3, 0x00, 0x00, 0x00, 0x01]).unwrap(),
        (3 * 0x1_0000_0000 + 1, 5)
    );
}

#[test]
fn gamma_decode_reads_only_the_code() {
    assert_eq!(decode_gamma(&[0x05, 0xFF, 0xFF]).unwrap(), (5, 1));
    assert_eq!(decode_gamma(&[0x81, 0x02, 0x99]).unwrap(), (0x102, 2));
}

#[test]
fn gamma_truncated_input_fails() {
    assert!(matches!(decode_gamma(&[]), Err(CoreError::UnexpectedEof)));
    assert!(matches!(decode_gamma(&[0x80]), Err(CoreError::UnexpectedEof)));
    assert!(matches!(decode_gamma(&[0xC0, 0x00]), Err(CoreError::UnexpectedEof)));
    assert!(matches!(decode_gamma(&[0xE0, 0, 0]), Err(CoreError::UnexpectedEof)));
    assert!(matches!(decode_gamma(&[0xF0, 0, 0, 0]), Err(CoreError::UnexpectedEof)));
}

#[test]
fn gamma_five_leading_ones_is_malformed() {
    assert!(matches!(decode_gamma(&[0xF8, 0, 0, 0, 0]), Err(CoreError::InvalidData(_))));
    assert!(matches!(decode_gamma(&[0xFF, 1, 2, 3, 4, 5]), Err(CoreError::InvalidData(_))));
    assert!(matches!(decode_gamma(&[0xFF]), Err(CoreError::InvalidData(_))));
    assert_eq!(decode_gamma(&[0xF7, 0, 0, 0, 1]).unwrap(), (7 * 0x1_0000_0000 + 1, 5));
}
