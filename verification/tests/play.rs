use mcserver::play::{handle_packet_id, PlayAction, PlayOutcome};
use mcserver::structs::Player;

#[derive(Debug, PartialEq)]
enum Act {
    Send(i32, Vec<u8>),
    Broadcast(i32, Vec<u8>),
    Log(String),
    Respawn,
    Moved(u64, u64, u64),
    MovedAndTurned(u64, u64, u64),
    Turned,
    Unknown,
}

fn acts(o: &PlayOutcome) -> Vec<Act> {
    o.actions
        .iter()
        .map(|a| match a {
            PlayAction::Send(id, d) => Act::Send(*id, d.clone()),
            PlayAction::Broadcast(id, d) => Act::Broadcast(*id, d.clone()),
            PlayAction::Log(s) => Act::Log(s.clone()),
            PlayAction::Respawn => Act::Respawn,
            PlayAction::Moved(x, y, z) => Act::Moved(*x, *y, *z),
            PlayAction::MovedAndTurned(x, y, z) => Act::MovedAndTurned(*x, *y, *z),
            PlayAction::Turned => Act::Turned,
            PlayAction::Unknown => Act::Unknown,
        })
        .collect()
}

fn steve() -> Player {
    Player::new("Steve".to_string(), 1, 300)
}

fn string_field(s: &str) -> Vec<u8> {
    let mut v = vec![s.len() as u8];
    v.extend_from_slice(s.as_bytes());
    v
}

fn chat(text: &str, position: u8) -> Vec<u8> {
    let mut v = string_field(&format!("{{\"text\":\"{}\"}}", text));
    v.push(position);
    v
}

fn run(id: i32, data: Vec<u8>) -> (Option<PlayOutcome>, Vec<u8>) {
    let (r, data, _) = run_with(id, data);
    (r, data)
}

fn run_with(id: i32, data: Vec<u8>) -> (Option<PlayOutcome>, Vec<u8>, Player) {
    let mut data = data;
    let mut player = steve();
    let r = handle_packet_id(id, &mut data, &mut player);
    (r, data, player)
}

#[test]
fn chat_message_goes_to_everyone() {
    let (r, rest) = run(5, string_field("hello"));
    let o = r.unwrap();
    assert_eq!(
        acts(&o),
        vec![
            Act::Log("Steve: hello".to_string()),
            Act::Broadcast(0x60, chat("Steve: hello", 0)),
            Act::Send(0x60, chat("Steve: hello", 0)),
        ]
    );
    assert_eq!(o.result, Some(0));
    assert!(rest.is_empty());
}

#[test]
fn cut_short_chat_is_refused() {
    assert!(run(5, vec![]).0.is_none());
    assert!(run(5, vec![4, b'a']).0.is_none());
}

#[test]
fn give_command() {
    let (r, _) = run(4, string_field("give 1 64"));
    let o = r.unwrap();
    let mut body = vec![0, 0, 37];
    body.extend([0u8; 36]);
    body.extend([1, 1, 64, 0, 0]);
    assert_eq!(acts(&o), vec![Act::Send(0x10, body)]);
    assert_eq!(o.result, Some(0));
}

#[test]
fn give_command_with_plus_and_large_id() {
    let o = run(4, string_field("give +300 1")).0.unwrap();
    let mut body = vec![0, 0, 37];
    body.extend([0u8; 36]);
    body.extend([1, 0xAC, 0x02, 1, 0, 0]);
    assert_eq!(acts(&o), vec![Act::Send(0x10, body)]);
}

#[test]
fn give_command_errors() {
    let o = run(4, string_field("give 1")).0.unwrap();
    assert_eq!(acts(&o), vec![Act::Send(0x60, chat("incorrect usage", 0))]);
    assert_eq!(o.result, None);
    let o = run(4, string_field("give x 1")).0.unwrap();
    assert_eq!(acts(&o), vec![Act::Send(0x60, chat("invalid numbers", 0))]);
    let o = run(4, string_field("give 70000 1")).0.unwrap();
    assert_eq!(acts(&o), vec![Act::Send(0x60, chat("invalid numbers", 0))]);
    let o = run(4, string_field("give 1 256")).0.unwrap();
    assert_eq!(acts(&o), vec![Act::Send(0x60, chat("invalid numbers", 0))]);
    let o = run(4, string_field("give  1 2")).0.unwrap();
    assert_eq!(acts(&o), vec![Act::Send(0x60, chat("invalid numbers", 0))]);
}

#[test]
fn gm_command() {
    let o = run(4, string_field("gm 1")).0.unwrap();
    let mut event = vec![3];
    event.extend(1.0f32.to_be_bytes());
    assert_eq!(
        acts(&o),
        vec![
            Act::Send(0x1C, event),
            Act::Send(0x60, chat(&format!("gamemode updated to {}", 1.0f32), 1)),
        ]
    );
    assert_eq!(o.result, Some(0));
    for g in 0..=3u8 {
        let o = run(4, string_field(&format!("gm {}", g))).0.unwrap();
        let mut event = vec![3];
        event.extend((g as f32).to_be_bytes());
        assert_eq!(acts(&o)[0], Act::Send(0x1C, event));
    }
}

#[test]
fn gm_command_errors() {
    let o = run(4, string_field("gm")).0.unwrap();
    assert_eq!(acts(&o), vec![Act::Send(0x60, chat("incorrect usage", 0))]);
    let o = run(4, string_field("gm 4")).0.unwrap();
    assert_eq!(acts(&o), vec![Act::Send(0x60, chat("invalid gamemode number", 0))]);
    let o = run(4, string_field("gm -1")).0.unwrap();
    assert_eq!(acts(&o), vec![Act::Send(0x60, chat("invalid gamemode number", 0))]);
    assert_eq!(o.result, None);
}

#[test]
fn respawn_and_unknown_commands() {
    let o = run(4, string_field("respawn")).0.unwrap();
    assert_eq!(acts(&o), vec![Act::Respawn]);
    assert_eq!(o.result, Some(0));
    let o = run(4, string_field("fly")).0.unwrap();
    assert_eq!(acts(&o), vec![Act::Send(0x60, chat("command not found", 0))]);
    assert_eq!(o.result, None);
}

#[test]
fn client_information_shows_skin() {
    let mut data = string_field("en_us");
    data.extend([10, 0, 1, 0x7F, 1, 0, 1, 9]);
    let (r, rest) = run(7, data);
    let o = r.unwrap();
    let body = vec![0xAC, 0x02, 17, 0, 0x7F, 0xFF];
    assert_eq!(acts(&o), vec![Act::Broadcast(0x4E, body.clone()), Act::Send(0x4E, body)]);
    assert_eq!(o.result, Some(1));
    assert_eq!(rest, vec![9]);
}

#[test]
fn plugin_and_confirm_packets() {
    let o = run(12, vec![1, 2, 3]).0.unwrap();
    assert!(acts(&o).is_empty());
    assert_eq!(o.result, Some(0));
    let o = run(17, vec![]).0.unwrap();
    assert_eq!(o.result, Some(0));
}

#[test]
fn movement_packets() {
    let spawn = (8.0f64.to_bits(), 90.0f64.to_bits(), 8.0f64.to_bits());
    let mut data = vec![];
    data.extend(1.5f64.to_be_bytes());
    data.extend(64.0f64.to_be_bytes());
    data.extend((-2.0f64).to_be_bytes());
    data.push(1);
    let (r, _, p) = run_with(19, data.clone());
    let o = r.unwrap();
    assert_eq!(acts(&o), vec![Act::Moved(spawn.0, spawn.1, spawn.2)]);
    assert_eq!(o.result, Some(0));
    assert_eq!((p.x_bits, p.y_bits, p.z_bits), (1.5f64.to_bits(), 64.0f64.to_bits(), (-2.0f64).to_bits()));
    assert_eq!((p.yaw_bits, p.pitch_bits), (0, 0));
    let mut data2 = data.clone();
    data2.pop();
    data2.extend(90.0f32.to_be_bytes());
    data2.extend(10.0f32.to_be_bytes());
    data2.push(0);
    let (r, _, p) = run_with(20, data2);
    assert_eq!(acts(&r.unwrap()), vec![Act::MovedAndTurned(spawn.0, spawn.1, spawn.2)]);
    assert_eq!(p.x_bits, 1.5f64.to_bits());
    assert_eq!((p.yaw_bits, p.pitch_bits), (90.0f32.to_bits(), 10.0f32.to_bits()));
    let mut data3 = vec![];
    data3.extend(45.0f32.to_be_bytes());
    data3.extend((-5.0f32).to_be_bytes());
    data3.extend([1, 7]);
    let (r, _, p) = run_with(21, data3);
    let o = r.unwrap();
    assert_eq!(acts(&o), vec![Act::Turned]);
    assert_eq!(o.result, Some(1));
    assert_eq!((p.x_bits, p.y_bits, p.z_bits), spawn);
    assert_eq!((p.yaw_bits, p.pitch_bits), (45.0f32.to_bits(), (-5.0f32).to_bits()));
    assert!(run(19, vec![0; 24]).0.is_none());
}

#[test]
fn respawn_command_moves_player() {
    let (r, _, p) = run_with(4, string_field("respawn"));
    assert_eq!(acts(&r.unwrap()), vec![Act::Respawn]);
    assert_eq!(f64::from_bits(p.x_bits), 8.0);
    assert_eq!(f64::from_bits(p.y_bits), 80.0);
    assert_eq!(f64::from_bits(p.z_bits), 8.0);
    let (_, _, p) = run_with(5, string_field("hi"));
    assert_eq!(f64::from_bits(p.y_bits), 90.0);
}

#[test]
fn finished_digging_clears_block() {
    let mut data = vec![2];
    data.extend([0x00, 0x00, 0x02, 0x00, 0x00, 0x00, 0x80, 0x40]);
    data.extend([1, 5]);
    let o = run(28, data.clone()).0.unwrap();
    let body = vec![0x00, 0x00, 0x02, 0x00, 0x00, 0x00, 0x80, 0x40, 0];
    assert_eq!(acts(&o), vec![Act::Broadcast(0x09, body.clone()), Act::Send(0x09, body)]);
    data[0] = 0;
    let o = run(28, data).0.unwrap();
    assert!(acts(&o).is_empty());
    assert_eq!(o.result, Some(0));
}

#[test]
fn sneaking_metadata() {
    let o = run(29, vec![5, 0, 0]).0.unwrap();
    assert_eq!(
        acts(&o),
        vec![Act::Broadcast(0x4E, vec![5, 0, 0, 2, 6, 19, 5, 0xFF])]
    );
    let o = run(29, vec![5, 1, 0]).0.unwrap();
    assert_eq!(
        acts(&o),
        vec![Act::Broadcast(0x4E, vec![5, 0, 0, 0, 6, 19, 0, 0xFF])]
    );
}

#[test]
fn swing_arm_and_unknown_packets() {
    let o = run(47, vec![0]).0.unwrap();
    assert_eq!(acts(&o), vec![Act::Broadcast(0x03, vec![0xAC, 0x02, 0])]);
    assert_eq!(o.result, Some(1));
    let (r, rest) = run(99, vec![1, 2]);
    let o = r.unwrap();
    assert_eq!(acts(&o), vec![Act::Unknown]);
    assert_eq!(o.result, Some(2));
    assert_eq!(rest, vec![1, 2]);
}
