use mcserver::position::{read_position, write_position};

#[test]
fn write_position_packs_fields() {
    let mut buffer = vec![];
    write_position(&mut buffer, 8, 64, 8);
    assert_eq!(buffer, vec![0x00, 0x00, 0x02, 0x00, 0x00, 0x00, 0x80, 0x40]);
}

#[test]
fn write_position_negative() {
    let mut buffer = vec![];
    write_position(&mut buffer, -1, -1, -1);
    assert_eq!(buffer, vec![0xFF; 8]);
}

#[test]
fn write_position_keeps_low_bits() {
    let mut buffer = vec![];
    write_position(&mut buffer, 1 << 26, 1 << 12, 1 << 26);
    assert_eq!(buffer, vec![0; 8]);
}

#[test]
fn read_position_unpacks_fields() {
    let mut buffer = vec![0x00, 0x00, 0x02, 0x00, 0x00, 0x00, 0x80, 0x40, 0x07];
    assert_eq!(read_position(&mut buffer), (8, 64, 8));
    assert_eq!(buffer, vec![0x07]);
}

#[test]
fn position_read_after_write() {
    let cases = [
        (0, 0, 0),
        (1, 2, 3),
        (-1, -1, -1),
        (-33554432, -2048, -33554432),
        (33554431, 2047, 33554431),
        (-123456, 300, 98765),
    ];
    for (x, y, z) in cases {
        let mut buffer = vec![];
        write_position(&mut buffer, x, y, z);
        assert_eq!(read_position(&mut buffer), (x, y, z));
        assert!(buffer.is_empty());
    }
}

#[test]
fn position_out_of_field_range_wraps() {
    let mut buffer = vec![];
    write_position(&mut buffer, 1 << 25, 2048, 0);
    assert_eq!(read_position(&mut buffer), (-(1 << 25), -2048, 0));
}

#[test]
fn any_eight_bytes_read_and_write_back() {
    let cases: [[u8; 8]; 4] = [
        [0; 8],
        [0xFF; 8],
        [0x80, 0x01, 0x23, 0x45, 0x67, 0x89, 0xAB, 0xCD],
        [0x12, 0x34, 0x56, 0x78, 0x9A, 0xBC, 0xDE, 0xF0],
    ];
    for bytes in cases {
        let mut buffer = bytes.to_vec();
        let (x, y, z) = read_position(&mut buffer);
        let mut written = vec![];
        write_position(&mut written, x, y, z);
        assert_eq!(written, bytes.to_vec());
    }
}
