//! What the server does with a packet from a playing client: which packets to answer
//! with, which to hand to the other players, and what to leave to the caller (the
//! movement packets, whose arithmetic is on floating point).

use vstd::prelude::*;
use vstd::utf8::decode_utf8;

use crate::commands::{
    all_digits, chars_eq, digits_value, parse_unsigned, parse_unsigned_of, split_spaces,
    split_spaces_of, strip_plus,
};
use crate::frame::{actionbar_body, chat_body, chat_message_body};
use crate::packets::CPlayPacketid;
use crate::position::{
    lemma_position_write_after_read, position_of, position_word, read_position, write_position,
};
use crate::strings::{string_field_bytes, string_field_end, string_readable, try_read_string_buf};
use crate::structs::Player;
use crate::varint::{
    lemma_size_shape, try_read_var_int_buf, var_int_encoding, var_int_readable, var_int_size, var_int_value,
    write_var_int,
};
use crate::wire::{be_bytes, be_value, lemma_pow256_8, push_be_unsigned, take_be_front};

verus! {

/// One thing the server does in answer to a packet, as the contracts see it.
pub enum PlayEffect {
    /// Send a packet with this id and body to the client.
    Send(i32, Seq<u8>),
    /// Hand a packet with this id and body to every other player.
    Broadcast(i32, Seq<u8>),
    /// Print this line on the server's console.
    Log(Seq<char>),
    /// The player was put back at the respawn point; its yaw is yet to be brought into
    /// `0..360` degrees.
    Respawn,
    /// The player moved; the player now holds the new coordinates, and these are the
    /// ones it moved from (bits of `f64`s).
    Moved(u64, u64, u64),
    /// The player moved and turned; the player now holds the new coordinates and angles,
    /// and these are the coordinates it moved from (bits of `f64`s).
    MovedAndTurned(u64, u64, u64),
    /// The player turned; the player now holds the new yaw and pitch.
    Turned,
    /// A packet that the server does not handle: print its id and bytes.
    Unknown,
}

/// One thing the server does in answer to a packet.
pub enum PlayAction {
    Send(i32, Vec<u8>),
    Broadcast(i32, Vec<u8>),
    Log(String),
    Respawn,
    Moved(u64, u64, u64),
    MovedAndTurned(u64, u64, u64),
    Turned,
    Unknown,
}

impl View for PlayAction {
    type V = PlayEffect;

    open spec fn view(&self) -> PlayEffect {
        match self {
            PlayAction::Send(id, data) => PlayEffect::Send(*id, data@),
            PlayAction::Broadcast(id, data) => PlayEffect::Broadcast(*id, data@),
            PlayAction::Log(line) => PlayEffect::Log(line@),
            PlayAction::Respawn => PlayEffect::Respawn,
            PlayAction::Moved(x, y, z) => PlayEffect::Moved(*x, *y, *z),
            PlayAction::MovedAndTurned(x, y, z) => PlayEffect::MovedAndTurned(*x, *y, *z),
            PlayAction::Turned => PlayEffect::Turned,
            PlayAction::Unknown => PlayEffect::Unknown,
        }
    }
}

/// The answer to a packet, as the contracts see it: the effects in order, what the
/// handler returns (`None` ends the connection's packet loop, `Some` carries the number
/// of unread bytes), the bytes of the packet left unread, and where the player is put:
/// new coordinates (bits of `f64`s) and new yaw and pitch (bits of `f32`s), `None`
/// where they stay as they were.
pub struct PlayResponse {
    pub effects: Seq<PlayEffect>,
    pub result: Option<nat>,
    pub rest: Seq<u8>,
    pub position: Option<(u64, u64, u64)>,
    pub rotation: Option<(u32, u32)>,
}

impl PlayResponse {
    /// `new` is `old` put where this answer says: its name, UUID, entity and game mode
    /// kept, its coordinates and angles replaced where the answer gives new ones.
    pub open spec fn applied(self, old: Player, new: Player) -> bool {
        &&& new.username == old.username
        &&& new.uuid == old.uuid
        &&& new.entity_id == old.entity_id
        &&& new.gamemode == old.gamemode
        &&& match self.position {
            Some((x, y, z)) => new.x_bits == x && new.y_bits == y && new.z_bits == z,
            None => new.x_bits == old.x_bits && new.y_bits == old.y_bits && new.z_bits
                == old.z_bits,
        }
        &&& match self.rotation {
            Some((yaw, pitch)) => new.yaw_bits == yaw && new.pitch_bits == pitch,
            None => new.yaw_bits == old.yaw_bits && new.pitch_bits == old.pitch_bits,
        }
    }
}

/// The answer to a packet.
pub struct PlayOutcome {
    pub actions: Vec<PlayAction>,
    pub result: Option<usize>,
}

impl PlayOutcome {
    /// The effects of the actions, in order.
    pub open spec fn effects(&self) -> Seq<PlayEffect> {
        self.actions@.map_values(|a: PlayAction| a@)
    }

    /// This outcome is `r`, its unread bytes left aside.
    pub open spec fn is(&self, r: PlayResponse) -> bool {
        &&& self.effects() == r.effects
        &&& (self.result is None <==> r.result is None)
        &&& (self.result matches Some(n) ==> r.result == Some(n as nat))
    }
}

/// The first byte of `d` and the bytes after it.
pub open spec fn take_byte_spec(d: Seq<u8>) -> Option<(u8, Seq<u8>)> {
    if d.len() >= 1 {
        Some((d[0], d.drop_first()))
    } else {
        None
    }
}

/// The var-int at the front of `d` and the bytes after it.
pub open spec fn take_var_int_spec(d: Seq<u8>) -> Option<(u32, Seq<u8>)> {
    if var_int_readable(d) {
        Some((var_int_value(d), d.skip(var_int_size(d) as int)))
    } else {
        None
    }
}

/// The string at the front of `d` and the bytes after it.
pub open spec fn take_string_spec(d: Seq<u8>) -> Option<(Seq<char>, Seq<u8>)> {
    if string_readable(d) {
        Some((decode_utf8(string_field_bytes(d)), d.skip(string_field_end(d))))
    } else {
        None
    }
}

/// The unsigned big-endian value of the first `n` bytes of `d` and the bytes after them.
pub open spec fn take_be_spec(d: Seq<u8>, n: nat) -> Option<(nat, Seq<u8>)> {
    if d.len() >= n {
        Some((be_value(d.take(n as int)), d.skip(n as int)))
    } else {
        None
    }
}

fn take_byte(d: &mut Vec<u8>) -> (r: Option<u8>)
    ensures
        match take_byte_spec(old(d)@) {
            Some((b, rest)) => r == Some(b) && final(d)@ == rest,
            None => r is None,
        },
{
    if d.len() >= 1 {
        let b = d.remove(0);
        assert(d@ =~= old(d)@.drop_first());
        Some(b)
    } else {
        None
    }
}

fn take_var_int(d: &mut Vec<u8>) -> (r: Option<u32>)
    ensures
        match take_var_int_spec(old(d)@) {
            Some((v, rest)) => r == Some(v) && final(d)@ == rest,
            None => r is None,
        },
{
    try_read_var_int_buf(d)
}

fn take_string(d: &mut Vec<u8>) -> (r: Option<String>)
    ensures
        match take_string_spec(old(d)@) {
            Some((s, rest)) => r matches Some(t) && t@ == s && final(d)@ == rest,
            None => r is None,
        },
{
    try_read_string_buf(d)
}

fn take_be(d: &mut Vec<u8>, n: usize) -> (r: Option<u128>)
    requires
        n <= 16,
    ensures
        match take_be_spec(old(d)@, n as nat) {
            Some((v, rest)) => r == Some(v as u128) && final(d)@ == rest,
            None => r is None,
        },
        r matches Some(v) ==> v < crate::wire::pow256(n as nat),
        old(d)@.len() >= n ==> be_value(old(d)@.take(n as int)) < crate::wire::pow256(n as nat),
{
    if d.len() < n {
        return None;
    }
    Some(take_be_front(d, n))
}


/// An answer that carries on with the packet loop, `rest` unread.
pub open spec fn carry_on(effects: Seq<PlayEffect>, rest: Seq<u8>) -> PlayResponse {
    PlayResponse { effects, result: Some(rest.len()), rest, position: None, rotation: None }
}

/// The characters `: `.
pub open spec fn colon_space() -> Seq<char> {
    seq![':', ' ']
}

/// Chat message (packet 5): print `<name>: <message>` and show it to everyone, the
/// sender included.
pub open spec fn chat_response(d: Seq<u8>, username: Seq<char>) -> Option<PlayResponse> {
    match take_string_spec(d) {
        None => None,
        Some((message, rest)) => {
            let line = username + colon_space() + message;
            let chat = CPlayPacketid::Chat.spec_id();
            Some(
                carry_on(
                    seq![
                        PlayEffect::Log(line),
                        PlayEffect::Broadcast(chat, chat_body(line, 0)),
                        PlayEffect::Send(chat, chat_body(line, 0)),
                    ],
                    rest,
                ),
            )
        },
    }
}

fn handle_chat(data: &mut Vec<u8>, player: &Player) -> (r: Option<PlayOutcome>)
    ensures
        match chat_response(old(data)@, player.username@) {
            None => r is None,
            Some(resp) => r matches Some(o) && o.is(resp) && final(data)@ == resp.rest,
        },
{
    let message = match take_string(data) {
        Some(m) => m,
        None => return None,
    };
    let mut line = player.username.clone();
    line.append(": ");
    line.append(message.as_str());
    proof {
        reveal_strlit(": ");
        assert(line@ =~= player.username@ + colon_space() + message@);
    }
    let body = chat_message_body(&line);
    let chat = CPlayPacketid::Chat.id();
    let mut actions: Vec<PlayAction> = Vec::new();
    actions.push(PlayAction::Log(line));
    actions.push(PlayAction::Broadcast(chat, body.clone()));
    actions.push(PlayAction::Send(chat, body));
    let o = PlayOutcome { actions, result: Some(data.len()) };
    assert(o.effects() =~= chat_response(old(data)@, player.username@).unwrap().effects);
    Some(o)
}

/// The body of the entity-metadata packet that shows a player's skin parts: the entity,
/// field 17 of type byte set to `skin_parts`, and the end marker.
pub open spec fn skin_metadata_body(entity_id: i32, skin_parts: u8) -> Seq<u8> {
    var_int_encoding(entity_id as int) + seq![17u8] + var_int_encoding(0) + seq![
        skin_parts,
        0xffu8,
    ]
}

/// Client information (packet 7): locale, view distance, chat mode, chat colours, skin
/// parts, main hand, text filtering and server listing; the skin parts are shown to
/// everyone, the sender included.
pub open spec fn client_information_response(d: Seq<u8>, entity_id: i32) -> Option<PlayResponse> {
    match take_string_spec(d) {
        None => None,
        Some((_locale, d1)) => match take_byte_spec(d1) {
            None => None,
            Some((_view, d2)) => match take_var_int_spec(d2) {
                None => None,
                Some((_mode, d3)) => match take_byte_spec(d3) {
                    None => None,
                    Some((_colors, d4)) => match take_byte_spec(d4) {
                        None => None,
                        Some((skin, d5)) => match take_var_int_spec(d5) {
                            None => None,
                            Some((_hand, d6)) => match take_byte_spec(d6) {
                                None => None,
                                Some((_filter, d7)) => match take_byte_spec(d7) {
                                    None => None,
                                    Some((_listing, rest)) => {
                                        let meta = CPlayPacketid::EntityMetadata.spec_id();
                                        let body = skin_metadata_body(entity_id, skin);
                                        Some(
                                            carry_on(
                                                seq![
                                                    PlayEffect::Broadcast(meta, body),
                                                    PlayEffect::Send(meta, body),
                                                ],
                                                rest,
                                            ),
                                        )
                                    },
                                },
                            },
                        },
                    },
                },
            },
        },
    }
}

fn handle_client_information(data: &mut Vec<u8>, player: &Player) -> (r: Option<PlayOutcome>)
    ensures
        match client_information_response(old(data)@, player.entity_id) {
            None => r is None,
            Some(resp) => r matches Some(o) && o.is(resp) && final(data)@ == resp.rest,
        },
{
    if take_string(data).is_none() {
        return None;
    }
    if take_byte(data).is_none() {
        return None;
    }
    if take_var_int(data).is_none() {
        return None;
    }
    if take_byte(data).is_none() {
        return None;
    }
    let skin_parts = match take_byte(data) {
        Some(b) => b,
        None => return None,
    };
    if take_var_int(data).is_none() {
        return None;
    }
    if take_byte(data).is_none() {
        return None;
    }
    if take_byte(data).is_none() {
        return None;
    }
    let mut buffer: Vec<u8> = Vec::new();
    write_var_int(&mut buffer, player.entity_id);
    buffer.push(17);
    write_var_int(&mut buffer, 0);
    buffer.push(skin_parts);
    buffer.push(0xff);
    assert(buffer@ =~= skin_metadata_body(player.entity_id, skin_parts));
    let meta = CPlayPacketid::EntityMetadata.id();
    let mut actions: Vec<PlayAction> = Vec::new();
    actions.push(PlayAction::Broadcast(meta, buffer.clone()));
    actions.push(PlayAction::Send(meta, buffer));
    let o = PlayOutcome { actions, result: Some(data.len()) };
    assert(o.effects() =~= client_information_response(old(data)@, player.entity_id).unwrap().effects);
    Some(o)
}


/// Set player position (packet 19): x, y and z as `f64`s, then the on-ground flag. The
/// player moves there.
pub open spec fn position_response(d: Seq<u8>, player: Player) -> Option<PlayResponse> {
    match take_be_spec(d, 8) {
        None => None,
        Some((x, d1)) => match take_be_spec(d1, 8) {
            None => None,
            Some((y, d2)) => match take_be_spec(d2, 8) {
                None => None,
                Some((z, d3)) => match take_byte_spec(d3) {
                    None => None,
                    Some((_ground, rest)) => Some(
                        PlayResponse {
                            position: Some((x as u64, y as u64, z as u64)),
                            ..carry_on(
                                seq![
                                    PlayEffect::Moved(
                                        player.x_bits,
                                        player.y_bits,
                                        player.z_bits,
                                    ),
                                ],
                                rest,
                            )
                        },
                    ),
                },
            },
        },
    }
}

/// Set player position and rotation (packet 20): x, y and z as `f64`s, yaw and pitch as
/// `f32`s, then the on-ground flag. The player moves and turns so.
pub open spec fn position_rotation_response(d: Seq<u8>, player: Player) -> Option<PlayResponse> {
    match take_be_spec(d, 8) {
        None => None,
        Some((x, d1)) => match take_be_spec(d1, 8) {
            None => None,
            Some((y, d2)) => match take_be_spec(d2, 8) {
                None => None,
                Some((z, d3)) => match take_be_spec(d3, 4) {
                    None => None,
                    Some((yaw, d4)) => match take_be_spec(d4, 4) {
                        None => None,
                        Some((pitch, d5)) => match take_byte_spec(d5) {
                            None => None,
                            Some((_ground, rest)) => Some(
                                PlayResponse {
                                    position: Some((x as u64, y as u64, z as u64)),
                                    rotation: Some((yaw as u32, pitch as u32)),
                                    ..carry_on(
                                        seq![
                                            PlayEffect::MovedAndTurned(
                                                player.x_bits,
                                                player.y_bits,
                                                player.z_bits,
                                            ),
                                        ],
                                        rest,
                                    )
                                },
                            ),
                        },
                    },
                },
            },
        },
    }
}

/// Set player rotation (packet 21): yaw and pitch as `f32`s, then the on-ground flag.
/// The player turns so.
pub open spec fn rotation_response(d: Seq<u8>) -> Option<PlayResponse> {
    match take_be_spec(d, 4) {
        None => None,
        Some((yaw, d1)) => match take_be_spec(d1, 4) {
            None => None,
            Some((pitch, d2)) => match take_byte_spec(d2) {
                None => None,
                Some((_ground, rest)) => Some(
                    PlayResponse {
                        rotation: Some((yaw as u32, pitch as u32)),
                        ..carry_on(seq![PlayEffect::Turned], rest)
                    },
                ),
            },
        },
    }
}

fn handle_position(data: &mut Vec<u8>, player: &mut Player) -> (r: Option<PlayOutcome>)
    ensures
        match position_response(old(data)@, *old(player)) {
            None => r is None,
            Some(resp) => r matches Some(o) && o.is(resp) && final(data)@ == resp.rest
                && resp.applied(*old(player), *final(player)),
        },
{
    proof {
        lemma_pow256_8();
    }
    let x = match take_be(data, 8) {
        Some(v) => v as u64,
        None => return None,
    };
    let y = match take_be(data, 8) {
        Some(v) => v as u64,
        None => return None,
    };
    let z = match take_be(data, 8) {
        Some(v) => v as u64,
        None => return None,
    };
    if take_byte(data).is_none() {
        return None;
    }
    let mut actions: Vec<PlayAction> = Vec::new();
    actions.push(PlayAction::Moved(player.x_bits, player.y_bits, player.z_bits));
    player.x_bits = x;
    player.y_bits = y;
    player.z_bits = z;
    let o = PlayOutcome { actions, result: Some(data.len()) };
    assert(o.effects() =~= position_response(old(data)@, *old(player)).unwrap().effects);
    Some(o)
}

fn handle_position_rotation(data: &mut Vec<u8>, player: &mut Player) -> (r: Option<PlayOutcome>)
    ensures
        match position_rotation_response(old(data)@, *old(player)) {
            None => r is None,
            Some(resp) => r matches Some(o) && o.is(resp) && final(data)@ == resp.rest
                && resp.applied(*old(player), *final(player)),
        },
{
    proof {
        lemma_pow256_8();
    }
    let x = match take_be(data, 8) {
        Some(v) => v as u64,
        None => return None,
    };
    let y = match take_be(data, 8) {
        Some(v) => v as u64,
        None => return None,
    };
    let z = match take_be(data, 8) {
        Some(v) => v as u64,
        None => return None,
    };
    let yaw = match take_be(data, 4) {
        Some(v) => v as u32,
        None => return None,
    };
    let pitch = match take_be(data, 4) {
        Some(v) => v as u32,
        None => return None,
    };
    if take_byte(data).is_none() {
        return None;
    }
    let mut actions: Vec<PlayAction> = Vec::new();
    actions.push(PlayAction::MovedAndTurned(player.x_bits, player.y_bits, player.z_bits));
    player.x_bits = x;
    player.y_bits = y;
    player.z_bits = z;
    player.yaw_bits = yaw;
    player.pitch_bits = pitch;
    let o = PlayOutcome { actions, result: Some(data.len()) };
    assert(o.effects() =~= position_rotation_response(old(data)@, *old(player)).unwrap().effects);
    Some(o)
}

fn handle_rotation(data: &mut Vec<u8>, player: &mut Player) -> (r: Option<PlayOutcome>)
    ensures
        match rotation_response(old(data)@) {
            None => r is None,
            Some(resp) => r matches Some(o) && o.is(resp) && final(data)@ == resp.rest
                && resp.applied(*old(player), *final(player)),
        },
{
    proof {
        lemma_pow256_8();
    }
    let yaw = match take_be(data, 4) {
        Some(v) => v as u32,
        None => return None,
    };
    let pitch = match take_be(data, 4) {
        Some(v) => v as u32,
        None => return None,
    };
    if take_byte(data).is_none() {
        return None;
    }
    let mut actions: Vec<PlayAction> = Vec::new();
    actions.push(PlayAction::Turned);
    player.yaw_bits = yaw;
    player.pitch_bits = pitch;
    let o = PlayOutcome { actions, result: Some(data.len()) };
    assert(o.effects() =~= rotation_response(old(data)@).unwrap().effects);
    Some(o)
}

/// The body of the block-update packet that clears the block at `(x, y, z)`: the
/// position and block state 0 (air).
pub open spec fn block_cleared_body(x: int, y: int, z: int) -> Seq<u8> {
    be_bytes(position_word(x, y, z), 8) + var_int_encoding(0)
}

/// Player action (packet 28): status, block position, face and sequence number. When
/// the status is 2 (digging finished) the block becomes air for everyone, the sender
/// included.
pub open spec fn player_action_response(d: Seq<u8>) -> Option<PlayResponse> {
    match take_var_int_spec(d) {
        None => None,
        Some((status, d1)) => match take_be_spec(d1, 8) {
            None => None,
            Some((pos, d2)) => match take_byte_spec(d2) {
                None => None,
                Some((_face, d3)) => match take_var_int_spec(d3) {
                    None => None,
                    Some((_sequence, rest)) => {
                        let (x, y, z) = position_of(pos as int);
                        let update = CPlayPacketid::BlockUpdate.spec_id();
                        let body = block_cleared_body(x, y, z);
                        Some(
                            carry_on(
                                if status == 2 {
                                    seq![
                                        PlayEffect::Broadcast(update, body),
                                        PlayEffect::Send(update, body),
                                    ]
                                } else {
                                    Seq::empty()
                                },
                                rest,
                            ),
                        )
                    },
                },
            },
        },
    }
}

fn handle_player_action(data: &mut Vec<u8>) -> (r: Option<PlayOutcome>)
    ensures
        match player_action_response(old(data)@) {
            None => r is None,
            Some(resp) => r matches Some(o) && o.is(resp) && final(data)@ == resp.rest,
        },
{
    let status = match take_var_int(data) {
        Some(v) => v,
        None => return None,
    };
    if data.len() < 8 {
        return None;
    }
    let (x, y, z) = read_position(data);
    if take_byte(data).is_none() {
        return None;
    }
    if take_var_int(data).is_none() {
        return None;
    }
    let mut actions: Vec<PlayAction> = Vec::new();
    if status == 2 {
        let mut buffer: Vec<u8> = Vec::new();
        write_position(&mut buffer, x, y, z);
        write_var_int(&mut buffer, 0);
        let update = CPlayPacketid::BlockUpdate.id();
        actions.push(PlayAction::Broadcast(update, buffer.clone()));
        actions.push(PlayAction::Send(update, buffer));
    }
    let o = PlayOutcome { actions, result: Some(data.len()) };
    assert(o.effects() =~= player_action_response(old(data)@).unwrap().effects);
    Some(o)
}

/// The body of the entity-metadata packet for a player who starts (`sneaking`) or stops
/// sneaking: field 0 (flags) set to 2 or 0, field 6 (pose) set to 5 (crouching) or 0
/// (standing), and the end marker.
pub open spec fn sneak_metadata_body(entity_id: int, sneaking: bool) -> Seq<u8> {
    var_int_encoding(entity_id) + seq![0u8] + var_int_encoding(0) + seq![
        if sneaking {
            2u8
        } else {
            0u8
        },
        6u8,
    ] + var_int_encoding(19) + var_int_encoding(
        if sneaking {
            5
        } else {
            0
        },
    ) + seq![0xffu8]
}

/// Player command (packet 29): entity, action and jump boost. An even action shows the
/// entity sneaking to the other players, an odd one standing.
pub open spec fn player_command_response(d: Seq<u8>) -> Option<PlayResponse> {
    match take_var_int_spec(d) {
        None => None,
        Some((entity, d1)) => match take_var_int_spec(d1) {
            None => None,
            Some((action, d2)) => match take_var_int_spec(d2) {
                None => None,
                Some((_jump, rest)) => Some(
                    carry_on(
                        seq![
                            PlayEffect::Broadcast(
                                CPlayPacketid::EntityMetadata.spec_id(),
                                sneak_metadata_body((entity as i32) as int, action % 2 == 0),
                            ),
                        ],
                        rest,
                    ),
                ),
            },
        },
    }
}

fn handle_player_command(data: &mut Vec<u8>) -> (r: Option<PlayOutcome>)
    ensures
        match player_command_response(old(data)@) {
            None => r is None,
            Some(resp) => r matches Some(o) && o.is(resp) && final(data)@ == resp.rest,
        },
{
    let entity_id = match take_var_int(data) {
        Some(v) => v,
        None => return None,
    };
    let action = match take_var_int(data) {
        Some(v) => v,
        None => return None,
    };
    if take_var_int(data).is_none() {
        return None;
    }
    let sneaking = action % 2 == 0;
    let mut buffer: Vec<u8> = Vec::new();
    write_var_int(&mut buffer, entity_id as i32);
    buffer.push(0);
    write_var_int(&mut buffer, 0);
    buffer.push(if sneaking { 2 } else { 0 });
    buffer.push(6);
    write_var_int(&mut buffer, 19);
    write_var_int(&mut buffer, if sneaking { 5 } else { 0 });
    buffer.push(0xff);
    assert(buffer@ =~= sneak_metadata_body((entity_id as i32) as int, sneaking));
    let mut actions: Vec<PlayAction> = Vec::new();
    actions.push(PlayAction::Broadcast(CPlayPacketid::EntityMetadata.id(), buffer));
    let o = PlayOutcome { actions, result: Some(data.len()) };
    assert(o.effects() =~= player_command_response(old(data)@).unwrap().effects);
    Some(o)
}

/// The body of the entity-animation packet that swings the main arm of `entity_id`.
pub open spec fn swing_arm_body(entity_id: i32) -> Seq<u8> {
    var_int_encoding(entity_id as int) + seq![0u8]
}


/// Tells the player `text` in the chat box.
pub open spec fn chat_reply(text: Seq<char>) -> PlayEffect {
    PlayEffect::Send(CPlayPacketid::Chat.spec_id(), chat_body(text, 0))
}

/// Tells the player `text` and ends the packet loop.
pub open spec fn refuse(text: Seq<char>, rest: Seq<u8>) -> PlayResponse {
    PlayResponse {
        effects: seq![chat_reply(text)],
        result: None,
        rest,
        position: None,
        rotation: None,
    }
}

/// The body of the container-content packet that `give` sends: window 0, state 0, 37
/// slots of which the first 36 are empty and the last holds `count` items of `id`, and
/// an empty carried item.
pub open spec fn give_body(id: nat, count: nat) -> Seq<u8> {
    seq![0u8] + var_int_encoding(0) + var_int_encoding(37) + Seq::new(36, |_i: int| 0u8) + seq![
        1u8,
    ] + var_int_encoding(id as int) + seq![count as u8, 0u8, 0u8]
}

/// The bits of the `f32` game mode `g`, for `g` in `0..=3`.
pub open spec fn gamemode_f32_bits(g: nat) -> u32 {
    if g == 0 {
        0
    } else if g == 1 {
        0x3F80_0000
    } else if g == 2 {
        0x4000_0000
    } else {
        0x4040_0000
    }
}

/// The body of the game-event packet that changes the game mode to `g`: event 3 and the
/// mode as an `f32`.
pub open spec fn gamemode_event_body(g: nat) -> Seq<u8> {
    seq![3u8] + be_bytes(gamemode_f32_bits(g) as int, 4)
}

/// The decimal digit of `g`, for `g` in `0..=9`.
pub open spec fn digit_char(g: nat) -> char {
    ('0' as int + g) as char
}

/// Bits of the `f64` 8.0, the x coordinate of the respawn point.
pub const RESPAWN_X_BITS: u64 = 0x4020_0000_0000_0000u64;

/// Bits of the `f64` 80.0, the y coordinate of the respawn point.
pub const RESPAWN_Y_BITS: u64 = 0x4054_0000_0000_0000u64;

/// Bits of the `f64` 8.0, the z coordinate of the respawn point.
pub const RESPAWN_Z_BITS: u64 = 0x4020_0000_0000_0000u64;

/// A chat command: `give <id> <count>`, `gm <mode>` or `respawn`. A wrong command or
/// argument is answered in chat and ends the packet loop.
pub open spec fn command_response(message: Seq<char>, rest: Seq<u8>) -> PlayResponse {
    let args = split_spaces(message);
    if args[0] == "give"@ {
        if args.len() < 3 {
            refuse("incorrect usage"@, rest)
        } else if parse_unsigned(args[1], 0xffff) is Some && parse_unsigned(args[2], 0xff) is Some {
            carry_on(
                seq![
                    PlayEffect::Send(
                        CPlayPacketid::ContainerContent.spec_id(),
                        give_body(
                            parse_unsigned(args[1], 0xffff).unwrap(),
                            parse_unsigned(args[2], 0xff).unwrap(),
                        ),
                    ),
                ],
                rest,
            )
        } else {
            refuse("invalid numbers"@, rest)
        }
    } else if args[0] == "gm"@ {
        if args.len() < 2 {
            refuse("incorrect usage"@, rest)
        } else if parse_unsigned(args[1], 0xff) is Some && parse_unsigned(args[1], 0xff).unwrap()
            <= 3 {
            let g = parse_unsigned(args[1], 0xff).unwrap();
            carry_on(
                seq![
                    PlayEffect::Send(CPlayPacketid::GameEvent.spec_id(), gamemode_event_body(g)),
                    PlayEffect::Send(
                        CPlayPacketid::Chat.spec_id(),
                        chat_body("gamemode updated to "@ + seq![digit_char(g)], 1),
                    ),
                ],
                rest,
            )
        } else {
            refuse("invalid gamemode number"@, rest)
        }
    } else if args[0] == "respawn"@ {
        PlayResponse {
            position: Some((RESPAWN_X_BITS, RESPAWN_Y_BITS, RESPAWN_Z_BITS)),
            ..carry_on(seq![PlayEffect::Respawn], rest)
        }
    } else {
        refuse("command not found"@, rest)
    }
}

/// Chat command (packet 4): the command line as a string. `respawn` puts the player at
/// (8.0, 80.0, 8.0).
pub open spec fn command_packet_response(d: Seq<u8>) -> Option<PlayResponse> {
    match take_string_spec(d) {
        None => None,
        Some((message, rest)) => Some(command_response(message, rest)),
    }
}

fn refusal(text: &str) -> (o: PlayOutcome)
    ensures
        o.effects() == seq![chat_reply(text@)],
        o.result is None,
{
    let mut actions: Vec<PlayAction> = Vec::new();
    actions.push(PlayAction::Send(CPlayPacketid::Chat.id(), chat_message_body(&String::from_str(text))));
    let o = PlayOutcome { actions, result: None };
    assert(o.effects() =~= seq![chat_reply(text@)]);
    o
}

fn give_packet_body(id: u16, count: u8) -> (body: Vec<u8>)
    ensures
        body@ == give_body(id as nat, count as nat),
{
    let mut buffer: Vec<u8> = Vec::new();
    buffer.push(0);
    write_var_int(&mut buffer, 0);
    write_var_int(&mut buffer, 37);
    let ghost head = buffer@;
    let mut k: usize = 0;
    while k < 36
        invariant
            k <= 36,
            buffer@ == head + Seq::new(k as nat, |_i: int| 0u8),
        decreases 36 - k,
    {
        buffer.push(0);
        assert(buffer@ =~= head + Seq::new((k + 1) as nat, |_i: int| 0u8));
        k = k + 1;
    }
    buffer.push(1);
    write_var_int(&mut buffer, id as i32);
    buffer.push(count);
    buffer.push(0);
    buffer.push(0);
    assert(buffer@ =~= give_body(id as nat, count as nat));
    buffer
}

fn handle_command(data: &mut Vec<u8>, player: &mut Player) -> (r: Option<PlayOutcome>)
    ensures
        match command_packet_response(old(data)@) {
            None => r is None,
            Some(resp) => r matches Some(o) && o.is(resp) && final(data)@ == resp.rest
                && resp.applied(*old(player), *final(player)),
        },
{
    let message = match take_string(data) {
        Some(m) => m,
        None => return None,
    };
    let ghost rest = data@;
    let args = split_spaces_of(message.as_str());
    let o = if chars_eq(&args[0], "give") {
        if args.len() < 3 {
            refusal("incorrect usage")
        } else {
            let id = parse_unsigned_of(&args[1], 0xffff);
            let count = parse_unsigned_of(&args[2], 0xff);
            match (id, count) {
                (Some(id), Some(count)) => {
                    let mut actions: Vec<PlayAction> = Vec::new();
                    actions.push(
                        PlayAction::Send(
                            CPlayPacketid::ContainerContent.id(),
                            give_packet_body(id as u16, count as u8),
                        ),
                    );
                    let o = PlayOutcome { actions, result: Some(data.len()) };
                    assert(o.effects() =~= command_response(message@, rest).effects);
                    o
                },
                _ => refusal("invalid numbers"),
            }
        }
    } else if chars_eq(&args[0], "gm") {
        if args.len() < 2 {
            refusal("incorrect usage")
        } else {
            match parse_unsigned_of(&args[1], 0xff) {
                Some(g) if g <= 3 => {
                    let mut event: Vec<u8> = Vec::new();
                    event.push(3);
                    let bits: u32 = if g == 0 {
                        0
                    } else if g == 1 {
                        0x3F80_0000
                    } else if g == 2 {
                        0x4000_0000
                    } else {
                        0x4040_0000
                    };
                    push_be_unsigned(&mut event, bits as u128, 4);
                    assert(event@ =~= gamemode_event_body(g as nat));
                    let mut text = String::from_str("gamemode updated to ");
                    let digit = if g == 0 {
                        "0"
                    } else if g == 1 {
                        "1"
                    } else if g == 2 {
                        "2"
                    } else {
                        "3"
                    };
                    text.append(digit);
                    proof {
                        reveal_strlit("0");
                        reveal_strlit("1");
                        reveal_strlit("2");
                        reveal_strlit("3");
                        assert(text@ =~= "gamemode updated to "@ + seq![digit_char(g as nat)]);
                    }
                    let mut actions: Vec<PlayAction> = Vec::new();
                    actions.push(PlayAction::Send(CPlayPacketid::GameEvent.id(), event));
                    actions.push(PlayAction::Send(CPlayPacketid::Chat.id(), actionbar_body(&text)));
                    let o = PlayOutcome { actions, result: Some(data.len()) };
                    assert(o.effects() =~= command_response(message@, rest).effects);
                    o
                },
                _ => refusal("invalid gamemode number"),
            }
        }
    } else if chars_eq(&args[0], "respawn") {
        let mut actions: Vec<PlayAction> = Vec::new();
        actions.push(PlayAction::Respawn);
        player.x_bits = RESPAWN_X_BITS;
        player.y_bits = RESPAWN_Y_BITS;
        player.z_bits = RESPAWN_Z_BITS;
        let o = PlayOutcome { actions, result: Some(data.len()) };
        assert(o.effects() =~= command_response(message@, rest).effects);
        o
    } else {
        refusal("command not found")
    };
    Some(o)
}


/// What the server does with play packet `packet_id`, whose bytes after the id are `d`,
/// from the player named `username` whose entity is `entity_id`. `None` marks a packet
/// cut short or malformed for its id, on which the server gives up the connection.
pub open spec fn play_response(packet_id: i32, d: Seq<u8>, player: Player) -> Option<PlayResponse> {
    let username = player.username@;
    let entity_id = player.entity_id;
    if packet_id == 4 {
        command_packet_response(d)
    } else if packet_id == 5 {
        chat_response(d, username)
    } else if packet_id == 7 {
        client_information_response(d, entity_id)
    } else if packet_id == 12 || packet_id == 17 {
        Some(
            PlayResponse {
                effects: Seq::empty(),
                result: Some(0),
                rest: d,
                position: None,
                rotation: None,
            },
        )
    } else if packet_id == 19 {
        position_response(d, player)
    } else if packet_id == 20 {
        position_rotation_response(d, player)
    } else if packet_id == 21 {
        rotation_response(d)
    } else if packet_id == 28 {
        player_action_response(d)
    } else if packet_id == 29 {
        player_command_response(d)
    } else if packet_id == 47 {
        Some(
            carry_on(
                seq![
                    PlayEffect::Broadcast(
                        CPlayPacketid::SwingArm.spec_id(),
                        swing_arm_body(entity_id),
                    ),
                ],
                d,
            ),
        )
    } else {
        Some(carry_on(seq![PlayEffect::Unknown], d))
    }
}

/// Reads play packet `packet_id` from `data` (the bytes after the id), sent by `player`,
/// moves or turns the player as the packet says, and says what else to do: `None`
/// where the packet is cut short or malformed for its id.
pub fn handle_packet_id(packet_id: i32, data: &mut Vec<u8>, player: &mut Player) -> (r: Option<
    PlayOutcome,
>)
    ensures
        match play_response(packet_id, old(data)@, *old(player)) {
            None => r is None,
            Some(resp) => r matches Some(o) && o.is(resp) && final(data)@ == resp.rest
                && resp.applied(*old(player), *final(player)),
        },
{
    if packet_id == 4 {
        handle_command(data, player)
    } else if packet_id == 5 {
        handle_chat(data, player)
    } else if packet_id == 7 {
        handle_client_information(data, player)
    } else if packet_id == 12 || packet_id == 17 {
        let o = PlayOutcome { actions: Vec::new(), result: Some(0) };
        assert(o.effects() =~= Seq::<PlayEffect>::empty());
        Some(o)
    } else if packet_id == 19 {
        handle_position(data, player)
    } else if packet_id == 20 {
        handle_position_rotation(data, player)
    } else if packet_id == 21 {
        handle_rotation(data, player)
    } else if packet_id == 28 {
        handle_player_action(data)
    } else if packet_id == 29 {
        handle_player_command(data)
    } else if packet_id == 47 {
        let mut buffer: Vec<u8> = Vec::new();
        write_var_int(&mut buffer, player.entity_id);
        buffer.push(0);
        assert(buffer@ =~= swing_arm_body(player.entity_id));
        let mut actions: Vec<PlayAction> = Vec::new();
        actions.push(PlayAction::Broadcast(CPlayPacketid::SwingArm.id(), buffer));
        let o = PlayOutcome { actions, result: Some(data.len()) };
        assert(o.effects() =~= play_response(packet_id, old(data)@, *old(player)).unwrap().effects);
        Some(o)
    } else {
        let mut actions: Vec<PlayAction> = Vec::new();
        actions.push(PlayAction::Unknown);
        let o = PlayOutcome { actions, result: Some(data.len()) };
        assert(o.effects() =~= seq![PlayEffect::Unknown]);
        Some(o)
    }
}


/// `give` takes any item id that fits a `u16` and any count that fits a `u8`, written in
/// decimal: it sends a container-content packet (id 0x10) whose body ends with the count
/// and two zero bytes, and the packet loop goes on.
pub proof fn lemma_give_takes_u8_counts(message: Seq<char>, rest: Seq<u8>)
    requires
        split_spaces(message).len() >= 3,
        split_spaces(message)[0] == "give"@,
        split_spaces(message)[1].len() > 0,
        all_digits(split_spaces(message)[1]),
        digits_value(split_spaces(message)[1]) <= 65535,
        split_spaces(message)[2].len() > 0,
        all_digits(split_spaces(message)[2]),
        digits_value(split_spaces(message)[2]) <= 255,
    ensures
        ({
            let r = command_response(message, rest);
            let count = digits_value(split_spaces(message)[2]);
            &&& r.result == Some(rest.len())
            &&& r.effects.len() == 1
            &&& r.effects[0] matches PlayEffect::Send(id, body) && id == 0x10 && body.len() >= 3
                && body[body.len() - 3] == count as u8 && body[body.len() - 2] == 0
                && body[body.len() - 1] == 0
        }),
{
    let args = split_spaces(message);
    let a = args[1];
    let c = args[2];
    assert(a[0] != '+');
    assert(c[0] != '+');
    assert(strip_plus(a) == a);
    assert(strip_plus(c) == c);
    assert(parse_unsigned(a, 0xffff) == Some(digits_value(a)));
    assert(parse_unsigned(c, 0xff) == Some(digits_value(c)));
    let body = give_body(digits_value(a), digits_value(c));
    assert(body[body.len() - 3] == digits_value(c) as u8);
}

/// A player-action packet answers with block updates exactly when its status, the
/// first var-int, is 2 (finished digging). Then the same update goes to everyone and to
/// the sender: the eight position bytes that the client sent, followed by block state 0
/// (air). With any other status nothing is sent.
pub proof fn lemma_only_finished_digging_clears(d: Seq<u8>)
    requires
        player_action_response(d) is Some,
    ensures
        ({
            let r = player_action_response(d).unwrap();
            let n = var_int_size(d) as int;
            let body = d.subrange(n, n + 8).push(0u8);
            &&& var_int_value(d) != 2 ==> r.effects.len() == 0
            &&& var_int_value(d) == 2 ==> r.effects == seq![
                PlayEffect::Broadcast(0x09, body),
                PlayEffect::Send(0x09, body),
            ]
        }),
{
    lemma_size_shape(d);
    let n = var_int_size(d) as int;
    let d1 = d.skip(n);
    let bytes = d1.take(8);
    assert(bytes =~= d.subrange(n, n + 8));
    lemma_position_write_after_read(bytes);
    let (x, y, z) = position_of(be_value(bytes) as int);
    assert(var_int_encoding(0) == seq![0u8]);
    assert(block_cleared_body(x, y, z) =~= d.subrange(n, n + 8).push(0u8));
}

/// The entity metadata sent for client information carries, as the value of field 17,
/// the packet's fifth field: the byte after the locale, the view distance, the chat mode
/// and the chat colours. The body ends with that byte and the end marker 0xff, and the
/// same body (packet 0x4E) goes to everyone and to the sender.
pub proof fn lemma_client_information_skin(d: Seq<u8>, entity_id: i32)
    requires
        client_information_response(d, entity_id) is Some,
    ensures
        ({
            let r = client_information_response(d, entity_id).unwrap();
            let d2 = d.skip(string_field_end(d)).drop_first();
            let skin = d2[var_int_size(d2) + 1int];
            &&& r.effects.len() == 2
            &&& r.effects[0] matches PlayEffect::Broadcast(id, body) && id == 0x4E && body.len()
                >= 2 && body[body.len() - 2] == skin && body[body.len() - 1] == 0xff
                && r.effects[1] == PlayEffect::Send(0x4E, body)
        }),
{
    let d2 = d.skip(string_field_end(d)).drop_first();
    lemma_size_shape(d2);
    let k = var_int_size(d2) as int;
    let d3 = d2.skip(k);
    assert(d3.drop_first()[0] == d2[k + 1]);
}

} // verus!
