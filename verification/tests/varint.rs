use mcserver::varint::{read_var_int_buf, try_read_var_int_buf, write_var_int, VarIntDecoder};

fn encode(v: i32) -> Vec<u8> {
    let mut buffer = vec![];
    write_var_int(&mut buffer, v);
    buffer
}

#[test]
fn write_var_int_small_values() {
    assert_eq!(encode(0), vec![0x00]);
    assert_eq!(encode(1), vec![0x01]);
    assert_eq!(encode(63), vec![0x3F]);
}

#[test]
fn write_var_int_keeps_room_for_the_sign() {
    assert_eq!(encode(64), vec![0xC0, 0x00]);
    assert_eq!(encode(127), vec![0xFF, 0x00]);
    assert_eq!(encode(128), vec![0x80, 0x01]);
    assert_eq!(encode(300), vec![0xAC, 0x02]);
}

#[test]
fn write_var_int_negative_values() {
    assert_eq!(encode(-1), vec![0x7F]);
    assert_eq!(encode(-64), vec![0x40]);
    assert_eq!(encode(-65), vec![0xBF, 0x7F]);
}

#[test]
fn write_var_int_extremes() {
    assert_eq!(encode(i32::MAX), vec![0xFF, 0xFF, 0xFF, 0xFF, 0x07]);
    assert_eq!(encode(i32::MIN), vec![0x80, 0x80, 0x80, 0x80, 0x78]);
}

#[test]
fn write_var_int_appends() {
    let mut buffer = vec![9, 9];
    write_var_int(&mut buffer, 300);
    assert_eq!(buffer, vec![9, 9, 0xAC, 0x02]);
}

#[test]
fn read_var_int_buf_takes_the_front() {
    let mut buffer = vec![0xAC, 0x02, 0x09];
    assert_eq!(read_var_int_buf(&mut buffer), Ok(300));
    assert_eq!(buffer, vec![0x09]);
}

#[test]
fn read_var_int_buf_keeps_32_bits() {
    let mut buffer = vec![0xFF, 0xFF, 0xFF, 0xFF, 0x0F];
    assert_eq!(read_var_int_buf(&mut buffer), Ok(u32::MAX));
    assert!(buffer.is_empty());
    let mut buffer = vec![0xFF, 0xFF, 0xFF, 0xFF, 0x7F];
    assert_eq!(read_var_int_buf(&mut buffer), Ok(u32::MAX));
}

#[test]
fn read_after_write_non_negative() {
    for v in [0, 1, 63, 64, 127, 128, 300, 25565, 1 << 20, i32::MAX] {
        let mut buffer = encode(v);
        buffer.push(0x42);
        assert_eq!(read_var_int_buf(&mut buffer), Ok(v as u32));
        assert_eq!(buffer, vec![0x42]);
    }
}

#[test]
fn negative_values_do_not_read_back() {
    let mut buffer = encode(-1);
    assert_eq!(read_var_int_buf(&mut buffer), Ok(127));
}

#[test]
fn written_negative_values_stay_readable() {
    let mut buffer = encode(i32::MIN);
    assert!(try_read_var_int_buf(&mut buffer).is_some());
    assert!(buffer.is_empty());
}

#[test]
fn try_read_var_int_buf_refuses_unfinished_and_long() {
    let mut buffer = vec![0x80, 0x80];
    assert_eq!(try_read_var_int_buf(&mut buffer), None);
    assert_eq!(buffer, vec![0x80, 0x80]);
    let mut buffer = vec![0x80, 0x80, 0x80, 0x80, 0x80, 0x00];
    assert_eq!(try_read_var_int_buf(&mut buffer), None);
    let mut buffer: Vec<u8> = vec![];
    assert_eq!(try_read_var_int_buf(&mut buffer), None);
    let mut buffer = vec![0x80, 0x80, 0x80, 0x80, 0x01, 0x05];
    assert_eq!(try_read_var_int_buf(&mut buffer), Some(1 << 28));
    assert_eq!(buffer, vec![0x05]);
}

#[test]
fn decoder_matches_buffer_reader() {
    let mut decoder = VarIntDecoder::new();
    assert_eq!(decoder.bytes_read(), 0);
    assert_eq!(decoder.feed(0xAC), None);
    assert_eq!(decoder.bytes_read(), 1);
    assert_eq!(decoder.feed(0x02), Some(300));
    let mut decoder = VarIntDecoder::new();
    for _ in 0..4 {
        assert_eq!(decoder.feed(0xFF), None);
    }
    assert_eq!(decoder.feed(0x0F), Some(u32::MAX));
}

#[test]
fn decoder_after_five_continuation_bytes() {
    let mut decoder = VarIntDecoder::new();
    for _ in 0..5 {
        assert_eq!(decoder.feed(0x80), None);
    }
    assert_eq!(decoder.bytes_read(), 5);
}

#[test]
fn read_var_int_buf_refuses_overlong() {
    let mut buffer = vec![0x80, 0xFF, 0x80, 0x80, 0x80, 0x81, 0x05, 0x06];
    assert_eq!(read_var_int_buf(&mut buffer), Err("something badding"));
    assert_eq!(buffer, vec![0x05, 0x06]);
    let mut buffer = vec![0xFF; 6];
    assert_eq!(read_var_int_buf(&mut buffer), Err("something badding"));
    assert!(buffer.is_empty());
}
