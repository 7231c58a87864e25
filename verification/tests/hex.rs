use pjlink_bridge::hex::{format_colon_hex, format_lower_hex, format_upper_hex_u32};

#[test]
fn digits_are_ascii() {
    assert_eq!(format_lower_hex(&[0x09, 0xaf]), b"09af".to_vec());
    assert_eq!(format_upper_hex_u32(0x0000_9af0), b"00009AF0".to_vec());
}

#[test]
fn numbers_are_written_as_eight_upper_case_digits() {
    assert_eq!(format_upper_hex_u32(0), b"00000000".to_vec());
    assert_eq!(format_upper_hex_u32(0x0123_4567), b"01234567".to_vec());
    assert_eq!(format_upper_hex_u32(0x89ab_cdef), b"89ABCDEF".to_vec());
    assert_eq!(format_upper_hex_u32(u32::MAX), b"FFFFFFFF".to_vec());
    assert_eq!(format_upper_hex_u32(0x498e_4a67), b"498E4A67".to_vec());
    assert_eq!(format_upper_hex_u32(255), format!("{:08X}", 255).into_bytes());
}

#[test]
fn bytes_are_written_as_lower_case_digits() {
    assert_eq!(format_lower_hex(&[]), Vec::<u8>::new());
    assert_eq!(format_lower_hex(&[0x00, 0x0f, 0xa0, 0xff]), b"000fa0ff".to_vec());
    assert_eq!(
        format_lower_hex(&[0xd4, 0x1d, 0x8c, 0xd9]),
        b"d41d8cd9".to_vec()
    );
}

#[test]
fn addresses_are_written_with_colons() {
    assert_eq!(
        format_colon_hex(&[0xaa, 0xbb, 0xcc, 0xdd, 0xee, 0xff]),
        b"aa:bb:cc:dd:ee:ff".to_vec()
    );
    assert_eq!(
        format_colon_hex(&[0x00, 0x01, 0x20, 0x0a, 0x9f, 0x10]),
        b"00:01:20:0a:9f:10".to_vec()
    );
}
