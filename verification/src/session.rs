//! Bodies of the packets that a connection sends while a player logs in, plays and
//! leaves.

use vstd::prelude::*;

use crate::position::{position_word, write_position};
use crate::strings::{chat_component, string_encoding, write_string, write_string_chat};
use crate::structs::Player;
use crate::varint::{var_int_encoding, write_var_int};
use crate::wire::{be_bytes, push_be_signed, push_be_unsigned};

verus! {

/// The body of the login success packet: the UUID, the name, and no properties.
pub fn login_success_body(uuid: u128, username: String) -> (body: Vec<u8>)
    ensures
        body@ == be_bytes(uuid as int, 16) + string_encoding(username@) + var_int_encoding(0),
{
    let mut buffer: Vec<u8> = Vec::new();
    push_be_unsigned(&mut buffer, uuid, 16);
    write_string(&mut buffer, username);
    write_var_int(&mut buffer, 0);
    assert(buffer@ =~= be_bytes(uuid as int, 16) + string_encoding(username@) + var_int_encoding(0));
    buffer
}

/// The body of the player-info packet that adds one player to the tab list: actions 9
/// (add player, listed), one entry, its UUID and name, no properties, listed.
pub fn player_info_add_body(uuid: u128, username: String) -> (body: Vec<u8>)
    ensures
        body@ == seq![9u8] + var_int_encoding(1) + be_bytes(uuid as int, 16) + string_encoding(
            username@,
        ) + var_int_encoding(0) + seq![1u8],
{
    let mut buffer: Vec<u8> = Vec::new();
    buffer.push(9);
    write_var_int(&mut buffer, 1);
    push_be_unsigned(&mut buffer, uuid, 16);
    write_string(&mut buffer, username);
    write_var_int(&mut buffer, 0);
    buffer.push(1);
    assert(buffer@ =~= seq![9u8] + var_int_encoding(1) + be_bytes(uuid as int, 16)
        + string_encoding(username@) + var_int_encoding(0) + seq![1u8]);
    buffer
}

/// The body of the spawn-player packet for `player`: entity id, UUID, coordinates, and
/// yaw and pitch 0.
pub fn spawn_player_body(player: &Player) -> (body: Vec<u8>)
    ensures
        body@ == var_int_encoding(player.entity_id as int) + be_bytes(player.uuid as int, 16)
            + be_bytes(player.x_bits as int, 8) + be_bytes(player.y_bits as int, 8) + be_bytes(
            player.z_bits as int,
            8,
        ) + seq![0u8, 0u8],
{
    let mut buffer: Vec<u8> = Vec::new();
    write_var_int(&mut buffer, player.entity_id);
    push_be_unsigned(&mut buffer, player.uuid, 16);
    push_be_unsigned(&mut buffer, player.x_bits as u128, 8);
    push_be_unsigned(&mut buffer, player.y_bits as u128, 8);
    push_be_unsigned(&mut buffer, player.z_bits as u128, 8);
    buffer.push(0);
    buffer.push(0);
    assert(buffer@ =~= var_int_encoding(player.entity_id as int) + be_bytes(player.uuid as int, 16)
        + be_bytes(player.x_bits as int, 8) + be_bytes(player.y_bits as int, 8) + be_bytes(
        player.z_bits as int,
        8,
    ) + seq![0u8, 0u8]);
    buffer
}

/// The body of the set-default-spawn packet: block (8, 64, 8) and angle 0.0.
pub fn default_spawn_body() -> (body: Vec<u8>)
    ensures
        body@ == be_bytes(position_word(8, 64, 8), 8) + be_bytes(0, 4),
{
    let mut buffer: Vec<u8> = Vec::new();
    write_position(&mut buffer, 8, 64, 8);
    push_be_unsigned(&mut buffer, 0, 4);
    assert(buffer@ =~= be_bytes(position_word(8, 64, 8), 8) + be_bytes(0, 4));
    buffer
}

/// The chunk columns sent to a player who joins: x and z from -3 to 3, x outer.
pub fn spawn_chunks() -> (r: Vec<(i32, i32)>)
    ensures
        r@.len() == 49,
        forall|k: int| 0 <= k < 49 ==> r@[k] == ((k / 7 - 3) as i32, (k % 7 - 3) as i32),
{
    let mut r: Vec<(i32, i32)> = Vec::new();
    let mut x: i32 = 0;
    while x < 7
        invariant
            0 <= x <= 7,
            r@.len() == 7 * x,
            forall|k: int| 0 <= k < 7 * x ==> r@[k] == ((k / 7 - 3) as i32, (k % 7 - 3) as i32),
        decreases 7 - x,
    {
        let mut y: i32 = 0;
        while y < 7
            invariant
                0 <= x < 7,
                0 <= y <= 7,
                r@.len() == 7 * x + y,
                forall|k: int|
                    0 <= k < 7 * x + y ==> r@[k] == ((k / 7 - 3) as i32, (k % 7 - 3) as i32),
            decreases 7 - y,
        {
            r.push((x - 3, y - 3));
            y = y + 1;
        }
        x = x + 1;
    }
    r
}

/// The body of a chunk packet: the column's x and z, then the chunk data.
pub fn chunk_body(chunk_x: i32, chunk_z: i32, chunk_data: &Vec<u8>) -> (body: Vec<u8>)
    ensures
        body@ == be_bytes(chunk_x as int, 4) + be_bytes(chunk_z as int, 4) + chunk_data@,
{
    let mut buffer: Vec<u8> = Vec::new();
    push_be_signed(&mut buffer, chunk_x as i64, 4);
    push_be_signed(&mut buffer, chunk_z as i64, 4);
    let mut data = chunk_data.clone();
    assert(data@ =~= chunk_data@);
    buffer.append(&mut data);
    assert(buffer@ =~= be_bytes(chunk_x as int, 4) + be_bytes(chunk_z as int, 4) + chunk_data@);
    buffer
}

/// The body of the player-left packet: one UUID.
pub fn player_left_body(uuid: u128) -> (body: Vec<u8>)
    ensures
        body@ == var_int_encoding(1) + be_bytes(uuid as int, 16),
{
    let mut buffer: Vec<u8> = Vec::new();
    write_var_int(&mut buffer, 1);
    push_be_unsigned(&mut buffer, uuid, 16);
    buffer
}

/// The body of the remove-entities packet: one entity.
pub fn remove_entities_body(entity_id: i32) -> (body: Vec<u8>)
    ensures
        body@ == var_int_encoding(1) + var_int_encoding(entity_id as int),
{
    let mut buffer: Vec<u8> = Vec::new();
    write_var_int(&mut buffer, 1);
    write_var_int(&mut buffer, entity_id);
    buffer
}

/// The body of a keep-alive packet: the id 69 as eight bytes.
pub fn keep_alive_body() -> (body: Vec<u8>)
    ensures
        body@ == be_bytes(69, 8),
{
    let mut buffer: Vec<u8> = Vec::new();
    push_be_signed(&mut buffer, 69, 8);
    buffer
}

/// The body of the pong packet: the client's payload sent back.
pub fn pong_body(payload: i64) -> (body: Vec<u8>)
    ensures
        body@ == be_bytes(payload as int, 8),
{
    let mut buffer: Vec<u8> = Vec::new();
    push_be_signed(&mut buffer, payload, 8);
    buffer
}

/// The body of the kick sent when the name is already playing.
pub fn already_connected_body() -> (body: Vec<u8>)
    ensures
        body@ == string_encoding(chat_component("You are already connected to this server!"@)),
{
    let mut buffer: Vec<u8> = Vec::new();
    write_string_chat(&mut buffer, &String::from_str("You are already connected to this server!"));
    buffer
}

/// `<username> joined the game`.
pub fn joined_message(username: &String) -> (r: String)
    ensures
        r@ == username@ + " joined the game"@,
{
    let mut r = username.clone();
    r.append(" joined the game");
    r
}

/// `<username> left the game`.
pub fn left_message(username: &String) -> (r: String)
    ensures
        r@ == username@ + " left the game"@,
{
    let mut r = username.clone();
    r.append(" left the game");
    r
}


/// Where a handshake leads, by the state that it asks for next.
#[derive(Clone, Copy, Debug, PartialEq, Eq, Structural)]
pub enum HandshakeIntent {
    /// State 1: answer with the server status and a pong.
    Status,
    /// State 2: log the player in and start playing.
    Login,
    /// Any other state: close the connection.
    Close,
}

/// Where a handshake that asks for state `next_state` leads.
pub fn handshake_intent(next_state: u32) -> (r: HandshakeIntent)
    ensures
        next_state == 1 ==> r == HandshakeIntent::Status,
        next_state == 2 ==> r == HandshakeIntent::Login,
        next_state != 1 && next_state != 2 ==> r == HandshakeIntent::Close,
{
    if next_state == 1 {
        HandshakeIntent::Status
    } else if next_state == 2 {
        HandshakeIntent::Login
    } else {
        HandshakeIntent::Close
    }
}

/// One turn of a playing connection's loop: the next value of the turn counter and
/// whether to send a keep-alive now, which happens on every sixth turn.
pub fn keep_alive_tick(counter: u32) -> (r: (u32, bool))
    ensures
        counter >= 5 ==> r == (0u32, true),
        counter < 5 ==> r == ((counter + 1) as u32, false),
{
    if counter >= 5 {
        (0, true)
    } else {
        (counter + 1, false)
    }
}


/// The body of the update-entity-position packet: the entity, its x, y and z deltas (in
/// 1/4096 of a block), and the on-ground flag set.
pub fn entity_move_body(entity_id: i32, dx: i16, dy: i16, dz: i16) -> (body: Vec<u8>)
    ensures
        body@ == var_int_encoding(entity_id as int) + be_bytes(dx as int, 2) + be_bytes(
            dy as int,
            2,
        ) + be_bytes(dz as int, 2) + seq![1u8],
{
    let mut buffer: Vec<u8> = Vec::new();
    write_var_int(&mut buffer, entity_id);
    push_be_signed(&mut buffer, dx as i64, 2);
    push_be_signed(&mut buffer, dy as i64, 2);
    push_be_signed(&mut buffer, dz as i64, 2);
    buffer.push(1);
    assert(buffer@ =~= var_int_encoding(entity_id as int) + be_bytes(dx as int, 2) + be_bytes(
        dy as int,
        2,
    ) + be_bytes(dz as int, 2) + seq![1u8]);
    buffer
}

/// The body of the update-entity-position-and-rotation packet: the entity, its deltas,
/// its yaw and pitch as angle bytes, and the on-ground flag set.
pub fn entity_move_rotate_body(
    entity_id: i32,
    dx: i16,
    dy: i16,
    dz: i16,
    yaw_angle: u8,
    pitch_angle: i8,
) -> (body: Vec<u8>)
    ensures
        body@ == var_int_encoding(entity_id as int) + be_bytes(dx as int, 2) + be_bytes(
            dy as int,
            2,
        ) + be_bytes(dz as int, 2) + seq![yaw_angle] + be_bytes(pitch_angle as int, 1) + seq![
            1u8,
        ],
{
    let mut buffer: Vec<u8> = Vec::new();
    write_var_int(&mut buffer, entity_id);
    push_be_signed(&mut buffer, dx as i64, 2);
    push_be_signed(&mut buffer, dy as i64, 2);
    push_be_signed(&mut buffer, dz as i64, 2);
    buffer.push(yaw_angle);
    push_be_signed(&mut buffer, pitch_angle as i64, 1);
    buffer.push(1);
    assert(buffer@ =~= var_int_encoding(entity_id as int) + be_bytes(dx as int, 2) + be_bytes(
        dy as int,
        2,
    ) + be_bytes(dz as int, 2) + seq![yaw_angle] + be_bytes(pitch_angle as int, 1) + seq![1u8]);
    buffer
}

/// The body of the update-entity-rotation packet: the entity, its yaw and pitch as
/// angle bytes, and the on-ground flag set.
pub fn entity_rotate_body(entity_id: i32, yaw_angle: u8, pitch_angle: i8) -> (body: Vec<u8>)
    ensures
        body@ == var_int_encoding(entity_id as int) + seq![yaw_angle] + be_bytes(
            pitch_angle as int,
            1,
        ) + seq![1u8],
{
    let mut buffer: Vec<u8> = Vec::new();
    write_var_int(&mut buffer, entity_id);
    buffer.push(yaw_angle);
    push_be_signed(&mut buffer, pitch_angle as i64, 1);
    buffer.push(1);
    assert(buffer@ =~= var_int_encoding(entity_id as int) + seq![yaw_angle] + be_bytes(
        pitch_angle as int,
        1,
    ) + seq![1u8]);
    buffer
}

/// The body of the set-head-rotation packet: the entity and its head yaw as an angle
/// byte.
pub fn head_rotation_body(entity_id: i32, yaw_angle: u8) -> (body: Vec<u8>)
    ensures
        body@ == var_int_encoding(entity_id as int) + seq![yaw_angle],
{
    let mut buffer: Vec<u8> = Vec::new();
    write_var_int(&mut buffer, entity_id);
    buffer.push(yaw_angle);
    buffer
}

/// The body of the teleport-entity packet that shows `player` where it now is: the
/// entity, its coordinates, its yaw and pitch as angle bytes, and the on-ground flag set.
pub fn teleport_body(player: &Player, yaw_angle: u8, pitch_angle: i8) -> (body: Vec<u8>)
    ensures
        body@ == var_int_encoding(player.entity_id as int) + be_bytes(player.x_bits as int, 8)
            + be_bytes(player.y_bits as int, 8) + be_bytes(player.z_bits as int, 8) + seq![
            yaw_angle,
        ] + be_bytes(pitch_angle as int, 1) + seq![1u8],
{
    let mut buffer: Vec<u8> = Vec::new();
    write_var_int(&mut buffer, player.entity_id);
    push_be_unsigned(&mut buffer, player.x_bits as u128, 8);
    push_be_unsigned(&mut buffer, player.y_bits as u128, 8);
    push_be_unsigned(&mut buffer, player.z_bits as u128, 8);
    buffer.push(yaw_angle);
    push_be_signed(&mut buffer, pitch_angle as i64, 1);
    buffer.push(1);
    assert(buffer@ =~= var_int_encoding(player.entity_id as int) + be_bytes(player.x_bits as int, 8)
        + be_bytes(player.y_bits as int, 8) + be_bytes(player.z_bits as int, 8) + seq![yaw_angle]
        + be_bytes(pitch_angle as int, 1) + seq![1u8]);
    buffer
}

} // verus!
