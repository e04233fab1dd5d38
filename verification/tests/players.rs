use mcserver::players::{
    _get_player, disconnect_player, has_player, load_player_record, player_file_path,
    player_record, populate_players, server_status, SPAWN_X_BITS, SPAWN_Y_BITS, SPAWN_Z_BITS,
};
use mcserver::structs::Player;

fn player(name: &str, uuid: u128, entity_id: i32) -> Player {
    Player::new(name.to_string(), uuid, entity_id)
}

#[test]
fn new_player_spawns_at_default_place() {
    let p = player("Steve", 7, 3);
    assert_eq!(p.username, "Steve");
    assert_eq!(p.uuid, 7);
    assert_eq!(p.entity_id, 3);
    assert_eq!(p.x_bits, 8.0f64.to_bits());
    assert_eq!(p.y_bits, 90.0f64.to_bits());
    assert_eq!(p.z_bits, 8.0f64.to_bits());
    assert_eq!(p.yaw_bits, 0.0f32.to_bits());
    assert_eq!(p.pitch_bits, 0.0f32.to_bits());
    assert_eq!(p.gamemode, 0);
    assert_eq!(SPAWN_X_BITS, 8.0f64.to_bits());
    assert_eq!(SPAWN_Y_BITS, 90.0f64.to_bits());
    assert_eq!(SPAWN_Z_BITS, 8.0f64.to_bits());
}

#[test]
fn has_player_by_name() {
    let players = vec![player("a", 1, 1), player("b", 2, 2)];
    assert!(has_player(&players, &"b".to_string()));
    assert!(!has_player(&players, &"c".to_string()));
    assert!(!has_player(&vec![], &"a".to_string()));
}

#[test]
fn disconnect_player_removes_first_match() {
    let mut players = vec![player("a", 1, 1), player("b", 2, 2), player("b", 3, 3)];
    disconnect_player(&mut players, &"b".to_string());
    assert_eq!(players.len(), 2);
    assert_eq!(players[0].uuid, 1);
    assert_eq!(players[1].uuid, 3);
}

#[test]
fn disconnect_player_unknown_name_keeps_list() {
    let mut players = vec![player("a", 1, 1)];
    disconnect_player(&mut players, &"z".to_string());
    assert_eq!(players.len(), 1);
}

#[test]
fn get_player_copies_first_match() {
    let players = vec![player("a", 1, 1), player("a", 2, 2)];
    let found = _get_player(&players, &"a".to_string()).unwrap();
    assert_eq!(found.uuid, 1);
    assert!(_get_player(&players, &"b".to_string()).is_none());
}

#[test]
fn populate_players_formats_uuids() {
    let players = vec![
        player("Steve", 0x0123456789abcdef0123456789abcdef, 1),
        player("Alex", 0, 2),
    ];
    let sample = populate_players(&players);
    assert_eq!(sample.len(), 2);
    assert_eq!(sample[0].name, "Steve");
    assert_eq!(sample[0].id, "01234567-89ab-cdef-0123-456789abcdef");
    assert_eq!(sample[1].name, "Alex");
    assert_eq!(sample[1].id, "00000000-0000-0000-0000-000000000000");
    assert!(populate_players(&vec![]).is_empty());
}

#[test]
fn server_status_fields() {
    let players = vec![player("Steve", u128::MAX, 1)];
    let status = server_status(&players);
    assert_eq!(status.version.name, "1.19.3");
    assert_eq!(status.version.protocol, 761);
    assert_eq!(status.players.max, 20);
    assert_eq!(status.players.online, 1);
    assert_eq!(status.players.sample[0].id, "ffffffff-ffff-ffff-ffff-ffffffffffff");
    assert_eq!(status.description.text, "hello aa");
    assert!(!status.enforces_secure_chat);
}

#[test]
fn player_record_layout() {
    let mut p = player("Steve", 1, 1);
    p.x_bits = 1.5f64.to_bits();
    p.y_bits = (-64.25f64).to_bits();
    p.z_bits = 1e10f64.to_bits();
    p.yaw_bits = 90.0f32.to_bits();
    p.pitch_bits = (-45.0f32).to_bits();
    p.gamemode = 2;
    let mut expected = vec![];
    expected.extend(1.5f64.to_be_bytes());
    expected.extend((-64.25f64).to_be_bytes());
    expected.extend(1e10f64.to_be_bytes());
    expected.extend(90.0f32.to_be_bytes());
    expected.extend((-45.0f32).to_be_bytes());
    expected.push(2);
    assert_eq!(player_record(&p), expected);
}

#[test]
fn player_record_roundtrip() {
    let mut saved = player("Steve", 1, 1);
    saved.x_bits = 3.25f64.to_bits();
    saved.y_bits = 70.0f64.to_bits();
    saved.z_bits = (-12.5f64).to_bits();
    saved.yaw_bits = 180.0f32.to_bits();
    saved.pitch_bits = 10.0f32.to_bits();
    saved.gamemode = 1;
    let mut record = player_record(&saved);
    let mut loaded = player("Steve", 9, 4);
    load_player_record(&mut loaded, &mut record);
    assert!(record.is_empty());
    assert_eq!(loaded.uuid, 9);
    assert_eq!(loaded.entity_id, 4);
    assert_eq!(f64::from_bits(loaded.x_bits), 3.25);
    assert_eq!(f64::from_bits(loaded.y_bits), 70.0);
    assert_eq!(f64::from_bits(loaded.z_bits), -12.5);
    assert_eq!(f32::from_bits(loaded.yaw_bits), 180.0);
    assert_eq!(f32::from_bits(loaded.pitch_bits), 10.0);
    assert_eq!(loaded.gamemode, 1);
}

#[test]
fn player_file_path_format() {
    assert_eq!(player_file_path(&"Steve".to_string()), "./players/Steve.bin");
}

#[test]
fn disconnected_unique_player_is_gone() {
    let mut players = vec![player("a", 1, 1), player("b", 2, 2), player("c", 3, 3)];
    disconnect_player(&mut players, &"b".to_string());
    assert!(!has_player(&players, &"b".to_string()));
    assert!(has_player(&players, &"a".to_string()));
    assert!(has_player(&players, &"c".to_string()));
}
