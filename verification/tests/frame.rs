use mcserver::frame::{actionbar_body, chat_message_body, frame_packet};
use mcserver::varint::read_var_int_buf;

#[test]
fn frame_packet_prefixes_length_and_id() {
    let mut body = vec![1, 2];
    let packet = frame_packet(&mut body, 0x1F);
    assert_eq!(packet, vec![3, 0x1F, 1, 2]);
    assert!(body.is_empty());
}

#[test]
fn frame_packet_empty_body_and_large_id() {
    let mut body = vec![];
    assert_eq!(frame_packet(&mut body, 0x64), vec![2, 0xE4, 0x00]);
}

#[test]
fn framed_packet_reads_back() {
    let mut body: Vec<u8> = (0..200u8).collect();
    let sent = body.clone();
    let mut packet = frame_packet(&mut body, 0x24);
    let len = read_var_int_buf(&mut packet).unwrap() as usize;
    assert_eq!(len, packet.len());
    assert_eq!(read_var_int_buf(&mut packet), Ok(0x24));
    assert_eq!(packet, sent);
}

#[test]
fn chat_bodies_end_with_position() {
    let mut expected = vec![13u8];
    expected.extend_from_slice(b"{\"text\":\"hi\"}");
    let mut chat = expected.clone();
    chat.push(0);
    let mut bar = expected;
    bar.push(1);
    assert_eq!(chat_message_body(&"hi".to_string()), chat);
    assert_eq!(actionbar_body(&"hi".to_string()), bar);
}
