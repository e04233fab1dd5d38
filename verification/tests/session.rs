use mcserver::session::{
    entity_move_body, entity_move_rotate_body, entity_rotate_body, head_rotation_body,
    teleport_body, already_connected_body, handshake_intent, keep_alive_tick, HandshakeIntent, chunk_body, default_spawn_body, joined_message, keep_alive_body,
    left_message, login_success_body, player_info_add_body, player_left_body, pong_body,
    remove_entities_body, spawn_chunks, spawn_player_body,
};
use mcserver::structs::Player;

const UUID: u128 = 0x000102030405060708090a0b0c0d0e0f;

fn uuid_bytes() -> Vec<u8> {
    (0..16u8).collect()
}

#[test]
fn login_success_layout() {
    let mut expected = uuid_bytes();
    expected.extend([5, b'S', b't', b'e', b'v', b'e', 0]);
    assert_eq!(login_success_body(UUID, "Steve".to_string()), expected);
}

#[test]
fn player_info_add_layout() {
    let mut expected = vec![9, 1];
    expected.extend(uuid_bytes());
    expected.extend([2, b'A', b'l', 0, 1]);
    assert_eq!(player_info_add_body(UUID, "Al".to_string()), expected);
}

#[test]
fn spawn_player_layout() {
    let p = Player::new("Steve".to_string(), UUID, 300);
    let mut expected = vec![0xAC, 0x02];
    expected.extend(uuid_bytes());
    expected.extend(8.0f64.to_be_bytes());
    expected.extend(90.0f64.to_be_bytes());
    expected.extend(8.0f64.to_be_bytes());
    expected.extend([0, 0]);
    assert_eq!(spawn_player_body(&p), expected);
}

#[test]
fn default_spawn_layout() {
    let mut expected = vec![0x00, 0x00, 0x02, 0x00, 0x00, 0x00, 0x80, 0x40];
    expected.extend(0.0f32.to_be_bytes());
    assert_eq!(default_spawn_body(), expected);
}

#[test]
fn spawn_chunks_cover_seven_by_seven() {
    let chunks = spawn_chunks();
    assert_eq!(chunks.len(), 49);
    assert_eq!(chunks[0], (-3, -3));
    assert_eq!(chunks[1], (-3, -2));
    assert_eq!(chunks[7], (-2, -3));
    assert_eq!(chunks[24], (0, 0));
    assert_eq!(chunks[48], (3, 3));
}

#[test]
fn chunk_layout() {
    assert_eq!(
        chunk_body(-3, 2, &vec![7, 8]),
        vec![0xFF, 0xFF, 0xFF, 0xFD, 0, 0, 0, 2, 7, 8]
    );
}

#[test]
fn small_bodies() {
    let mut left = vec![1];
    left.extend(uuid_bytes());
    assert_eq!(player_left_body(UUID), left);
    assert_eq!(remove_entities_body(300), vec![1, 0xAC, 0x02]);
    assert_eq!(keep_alive_body(), 69i64.to_be_bytes().to_vec());
    assert_eq!(pong_body(-2), (-2i64).to_be_bytes().to_vec());
}

#[test]
fn already_connected_layout() {
    let text = "{\"text\":\"You are already connected to this server!\"}";
    let mut expected = vec![text.len() as u8];
    expected.extend_from_slice(text.as_bytes());
    assert_eq!(already_connected_body(), expected);
}

#[test]
fn join_and_leave_messages() {
    assert_eq!(joined_message(&"Steve".to_string()), "Steve joined the game");
    assert_eq!(left_message(&"Steve".to_string()), "Steve left the game");
}

#[test]
fn handshake_states() {
    assert_eq!(handshake_intent(1), HandshakeIntent::Status);
    assert_eq!(handshake_intent(2), HandshakeIntent::Login);
    assert_eq!(handshake_intent(0), HandshakeIntent::Close);
    assert_eq!(handshake_intent(3), HandshakeIntent::Close);
}

#[test]
fn keep_alive_every_sixth_turn() {
    let mut counter = 0;
    let mut sent = vec![];
    for turn in 1..=13 {
        let (next, send) = keep_alive_tick(counter);
        counter = next;
        if send {
            sent.push(turn);
        }
    }
    assert_eq!(sent, vec![6, 12]);
}

#[test]
fn movement_bodies() {
    assert_eq!(
        entity_move_body(300, 1, -1, 4096),
        vec![0xAC, 0x02, 0, 1, 0xFF, 0xFF, 0x10, 0x00, 1]
    );
    assert_eq!(
        entity_move_rotate_body(5, 0, 2, -2, 200, -3),
        vec![5, 0, 0, 0, 2, 0xFF, 0xFE, 200, 0xFD, 1]
    );
    assert_eq!(entity_rotate_body(5, 63, 10), vec![5, 63, 10, 1]);
    assert_eq!(head_rotation_body(5, 63), vec![5, 63]);
}

#[test]
fn teleport_layout() {
    let p = Player::new("Steve".to_string(), UUID, 7);
    let mut expected = vec![7];
    expected.extend(8.0f64.to_be_bytes());
    expected.extend(90.0f64.to_be_bytes());
    expected.extend(8.0f64.to_be_bytes());
    expected.extend([10, 0xFF, 1]);
    assert_eq!(teleport_body(&p, 10, -1), expected);
}
