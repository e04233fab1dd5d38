use mcserver::packet_out::{PacketOutLoginPlay, SynchronizePlayerPosition};
use mcserver::structs::Player;

fn prefixed_string(s: &str) -> Vec<u8> {
    let mut v = vec![s.len() as u8];
    v.extend_from_slice(s.as_bytes());
    v
}

#[test]
fn login_play_defaults() {
    let p = PacketOutLoginPlay::new(7, vec![0xAA]);
    assert_eq!(p.entity_id, 7);
    assert!(!p.hardcore);
    assert_eq!(p.gamemode, 0);
    assert_eq!(p.prev_gamemode, -1);
    assert_eq!(p.dimensions, vec!["minecraft:overworld", "minecraft:the_nether", "minecraft:the_end"]);
    assert_eq!(p.registry_codec, vec![0xAA]);
    assert_eq!(p.dimension_type, "minecraft:overworld");
    assert_eq!(p.dimension_name, "minecraft:overworld");
    assert_eq!(p.hashed_seed, 5);
    assert_eq!(p.max_players, 20);
    assert_eq!(p.view_distance, 5);
    assert_eq!(p.simulation_distance, 5);
    assert!(p.enable_respawn_screen);
    assert!(!p.reduced_debug_info && !p.debug && !p.flat && !p.has_death);
}

#[test]
fn login_play_serialize_layout() {
    let p = PacketOutLoginPlay::new(1, vec![0xAA, 0xBB]);
    let mut buffer = vec![];
    PacketOutLoginPlay::serialize(&p, &mut buffer);
    let mut expected = vec![0, 0, 0, 1, 0, 0, 0xFF, 3];
    expected.extend(prefixed_string("minecraft:overworld"));
    expected.extend(prefixed_string("minecraft:the_nether"));
    expected.extend(prefixed_string("minecraft:the_end"));
    expected.extend([0xAA, 0xBB]);
    expected.extend(prefixed_string("minecraft:overworld"));
    expected.extend(prefixed_string("minecraft:overworld"));
    expected.extend([0, 0, 0, 0, 0, 0, 0, 5]);
    expected.extend([20, 5, 5]);
    expected.extend([0, 1, 0, 0, 0]);
    assert_eq!(buffer, expected);
}

#[test]
fn sync_position_layout() {
    let p = SynchronizePlayerPosition::new(
        1.0f64.to_bits(),
        2.0f64.to_bits(),
        3.0f64.to_bits(),
        4.0f32.to_bits(),
        5.0f32.to_bits(),
        6,
        true,
    );
    let mut buffer = vec![9];
    SynchronizePlayerPosition::serialize(&p, &mut buffer);
    let mut expected = vec![9];
    expected.extend(1.0f64.to_be_bytes());
    expected.extend(2.0f64.to_be_bytes());
    expected.extend(3.0f64.to_be_bytes());
    expected.extend(4.0f32.to_be_bytes());
    expected.extend(5.0f32.to_be_bytes());
    expected.extend([6, 0, 1]);
    assert_eq!(buffer, expected);
}

#[test]
fn sync_position_from_player() {
    let player = Player::new("Steve".to_string(), 1, 1);
    let p = SynchronizePlayerPosition::from_player(&player, 0, false);
    assert_eq!(p.x, 8.0f64.to_bits());
    assert_eq!(p.y, 90.0f64.to_bits());
    assert_eq!(p.z, 8.0f64.to_bits());
    assert_eq!(p.yaw, 0);
    assert_eq!(p.pitch, 0);
    assert_eq!(p.flags, 0);
    assert!(!p.dismount);
}
