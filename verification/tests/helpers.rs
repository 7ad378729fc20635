use can_messages::messages::battery::{to_signed, to_unsigned};
use can_messages::messages::helpers::{byte_at, read_be16, read_be24, read_be32};

#[test]
fn big_endian_numbers() {
    assert_eq!(read_be16(0x12, 0x34), 0x1234);
    assert_eq!(read_be16(0xFF, 0xFF), 0xFFFF);
    assert_eq!(read_be24(0xE4, 0xE1, 0xC0), 15_000_000);
    assert_eq!(read_be24(0xFF, 0xFF, 0xFF), 0xFF_FFFF);
    assert_eq!(read_be32(0, 0, 0x26, 0x88), 9864);
    assert_eq!(read_be32(0xFF, 0xFF, 0xFF, 0xFF), 0xFFFF_FFFF);
}

#[test]
fn bytes_of_a_number() {
    assert_eq!(byte_at(0x0102_0304, 0), 4);
    assert_eq!(byte_at(0x0102_0304, 1), 3);
    assert_eq!(byte_at(0x0102_0304, 2), 2);
    assert_eq!(byte_at(0x0102_0304, 3), 1);
    assert_eq!(byte_at(0x0102_0304, 4), 0);
    assert_eq!(byte_at(0xFFFF_FFFF, 200), 0);
}

#[test]
fn signed_readings() {
    assert_eq!(to_signed(0), 0);
    assert_eq!(to_signed(127), 127);
    assert_eq!(to_signed(128), -128);
    assert_eq!(to_signed(255), -1);
    assert_eq!(to_unsigned(-128), 128);
    assert_eq!(to_unsigned(-1), 255);
    assert_eq!(to_unsigned(127), 127);
    for b in 0..=255u8 {
        assert_eq!(to_unsigned(to_signed(b)), b);
        assert_eq!(to_signed(b), b as i8);
    }
}
