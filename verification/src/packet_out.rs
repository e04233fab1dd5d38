//! Bodies of the larger outgoing play packets.

use vstd::prelude::*;

use crate::strings::{string_encoding, write_string};
use crate::structs::Player;
use crate::varint::{var_int_encoding, write_var_int};
use crate::wire::{be_bytes, push_be_signed, push_be_unsigned};

verus! {

/// The byte for a boolean field: 1 for `true`, 0 for `false`.
pub open spec fn bool_byte(b: bool) -> u8 {
    if b {
        1
    } else {
        0
    }
}

fn bool_to_byte(b: bool) -> (r: u8)
    ensures
        r == bool_byte(b),
{
    if b {
        1
    } else {
        0
    }
}

/// The strings of `list`, each as `write_string` writes it, one after the other.
pub open spec fn strings_encoding(list: Seq<String>) -> Seq<u8>
    decreases list.len(),
{
    if list.len() == 0 {
        Seq::empty()
    } else {
        strings_encoding(list.drop_last()) + string_encoding(list.last()@)
    }
}

/// The "login (play)" packet that starts the play state.
pub struct PacketOutLoginPlay {
    pub entity_id: i32,
    pub hardcore: bool,
    pub gamemode: u8,
    pub prev_gamemode: i8,
    pub dimensions: Vec<String>,
    pub registry_codec: Vec<u8>,
    pub dimension_type: String,
    pub dimension_name: String,
    pub hashed_seed: i64,
    pub max_players: i64,
    pub view_distance: i64,
    pub simulation_distance: i64,
    pub reduced_debug_info: bool,
    pub enable_respawn_screen: bool,
    pub debug: bool,
    pub flat: bool,
    pub has_death: bool,
    /// Not sent yet.
    pub _death_dimension: String,
}

/// The body of a "login (play)" packet, field after field.
pub open spec fn login_play_bytes(p: PacketOutLoginPlay) -> Seq<u8> {
    login_play_head(p) + login_play_middle(p) + login_play_tail(p)
}

/// Entity id, hardcore flag, game modes and the dimension names.
pub open spec fn login_play_head(p: PacketOutLoginPlay) -> Seq<u8> {
    be_bytes(p.entity_id as int, 4) + seq![bool_byte(p.hardcore), p.gamemode] + be_bytes(
        p.prev_gamemode as int,
        1,
    ) + var_int_encoding((p.dimensions@.len() as i32) as int) + strings_encoding(p.dimensions@)
}

/// Registry codec, dimension type and name, and the hashed seed.
pub open spec fn login_play_middle(p: PacketOutLoginPlay) -> Seq<u8> {
    p.registry_codec@ + string_encoding(p.dimension_type@) + string_encoding(p.dimension_name@)
        + be_bytes(p.hashed_seed as int, 8)
}

/// Player limit, distances and the closing flags.
pub open spec fn login_play_tail(p: PacketOutLoginPlay) -> Seq<u8> {
    var_int_encoding((p.max_players as i32) as int) + var_int_encoding(
        (p.view_distance as i32) as int,
    ) + var_int_encoding((p.simulation_distance as i32) as int) + seq![
        bool_byte(p.reduced_debug_info),
        bool_byte(p.enable_respawn_screen),
        bool_byte(p.debug),
        bool_byte(p.flat),
        bool_byte(p.has_death),
    ]
}

impl PacketOutLoginPlay {
    /// The login packet for the player with entity `entity_id`: survival (previous game
    /// mode -1), not hardcore, the three vanilla dimensions, spawning in the overworld,
    /// seed hash 5, 20 players, view and simulation distance 5, respawn screen on.
    /// `registry_codec` is the NBT registry codec sent as it is.
    pub fn new(entity_id: i32, registry_codec: Vec<u8>) -> (p: PacketOutLoginPlay)
        ensures
            p.entity_id == entity_id,
            !p.hardcore,
            p.gamemode == 0,
            p.prev_gamemode == -1,
            p.dimensions@.len() == 3,
            p.dimensions@[0]@ == "minecraft:overworld"@,
            p.dimensions@[1]@ == "minecraft:the_nether"@,
            p.dimensions@[2]@ == "minecraft:the_end"@,
            p.registry_codec@ == registry_codec@,
            p.dimension_type@ == "minecraft:overworld"@,
            p.dimension_name@ == "minecraft:overworld"@,
            p.hashed_seed == 5,
            p.max_players == 20,
            p.view_distance == 5,
            p.simulation_distance == 5,
            !p.reduced_debug_info,
            p.enable_respawn_screen,
            !p.debug,
            !p.flat,
            !p.has_death,
            p._death_dimension@ == "minecraft:the_nether"@,
    {
        let mut dimensions: Vec<String> = Vec::new();
        dimensions.push(String::from_str("minecraft:overworld"));
        dimensions.push(String::from_str("minecraft:the_nether"));
        dimensions.push(String::from_str("minecraft:the_end"));
        PacketOutLoginPlay {
            entity_id,
            hardcore: false,
            gamemode: 0,
            prev_gamemode: -1,
            dimensions,
            registry_codec,
            dimension_type: String::from_str("minecraft:overworld"),
            dimension_name: String::from_str("minecraft:overworld"),
            hashed_seed: 5,
            max_players: 20,
            view_distance: 5,
            simulation_distance: 5,
            reduced_debug_info: false,
            enable_respawn_screen: true,
            debug: false,
            flat: false,
            has_death: false,
            _death_dimension: String::from_str("minecraft:the_nether"),
        }
    }

    /// Appends the body of `packet` to `buffer`.
    pub fn serialize(packet: &PacketOutLoginPlay, buffer: &mut Vec<u8>)
        ensures
            final(buffer)@ == old(buffer)@ + login_play_bytes(*packet),
    {
        Self::serialize_head(packet, buffer);
        Self::serialize_middle(packet, buffer);
        Self::serialize_tail(packet, buffer);
        assert(final(buffer)@ =~= old(buffer)@ + login_play_bytes(*packet));
    }

    fn serialize_head(packet: &PacketOutLoginPlay, buffer: &mut Vec<u8>)
        ensures
            final(buffer)@ == old(buffer)@ + login_play_head(*packet),
    {
        push_be_signed(buffer, packet.entity_id as i64, 4);
        buffer.push(bool_to_byte(packet.hardcore));
        buffer.push(packet.gamemode);
        push_be_signed(buffer, packet.prev_gamemode as i64, 1);
        write_var_int(buffer, packet.dimensions.len() as i32);
        let ghost before = buffer@;
        let mut i: usize = 0;
        while i < packet.dimensions.len()
            invariant
                i <= packet.dimensions@.len(),
                buffer@ == before + strings_encoding(packet.dimensions@.take(i as int)),
            decreases packet.dimensions@.len() - i,
        {
            let dim = packet.dimensions[i].clone();
            write_string(buffer, dim);
            assert(packet.dimensions@.take(i + 1).drop_last() =~= packet.dimensions@.take(
                i as int,
            ));
            assert(buffer@ =~= before + strings_encoding(packet.dimensions@.take(i + 1)));
            i = i + 1;
        }
        assert(packet.dimensions@.take(i as int) =~= packet.dimensions@);
        assert(final(buffer)@ =~= old(buffer)@ + login_play_head(*packet));
    }

    fn serialize_middle(packet: &PacketOutLoginPlay, buffer: &mut Vec<u8>)
        ensures
            final(buffer)@ == old(buffer)@ + login_play_middle(*packet),
    {
        let mut codec = packet.registry_codec.clone();
        assert(codec@ =~= packet.registry_codec@);
        buffer.append(&mut codec);
        write_string(buffer, packet.dimension_type.clone());
        write_string(buffer, packet.dimension_name.clone());
        push_be_signed(buffer, packet.hashed_seed, 8);
        assert(final(buffer)@ =~= old(buffer)@ + login_play_middle(*packet));
    }

    fn serialize_tail(packet: &PacketOutLoginPlay, buffer: &mut Vec<u8>)
        ensures
            final(buffer)@ == old(buffer)@ + login_play_tail(*packet),
    {
        write_var_int(buffer, packet.max_players as i32);
        write_var_int(buffer, packet.view_distance as i32);
        write_var_int(buffer, packet.simulation_distance as i32);
        buffer.push(bool_to_byte(packet.reduced_debug_info));
        buffer.push(bool_to_byte(packet.enable_respawn_screen));
        buffer.push(bool_to_byte(packet.debug));
        buffer.push(bool_to_byte(packet.flat));
        buffer.push(bool_to_byte(packet.has_death));
        assert(final(buffer)@ =~= old(buffer)@ + login_play_tail(*packet));
    }
}

/// The "synchronize player position" packet that puts a player at a place.
pub struct SynchronizePlayerPosition {
    /// Bits of the `f64` x coordinate.
    pub x: u64,
    /// Bits of the `f64` y coordinate.
    pub y: u64,
    /// Bits of the `f64` z coordinate.
    pub z: u64,
    /// Bits of the `f32` yaw.
    pub yaw: u32,
    /// Bits of the `f32` pitch.
    pub pitch: u32,
    pub flags: u8,
    pub dismount: bool,
}

/// The body of a "synchronize player position" packet: the coordinates, the angles, the
/// flags, teleport id 0 and the dismount flag.
pub open spec fn sync_position_bytes(p: SynchronizePlayerPosition) -> Seq<u8> {
    be_bytes(p.x as int, 8) + be_bytes(p.y as int, 8) + be_bytes(p.z as int, 8) + be_bytes(
        p.yaw as int,
        4,
    ) + be_bytes(p.pitch as int, 4) + seq![p.flags] + var_int_encoding(0) + seq![
        bool_byte(p.dismount),
    ]
}

impl SynchronizePlayerPosition {
    /// The packet with these fields.
    pub fn new(x: u64, y: u64, z: u64, yaw: u32, pitch: u32, flags: u8, dismount: bool) -> (p:
        SynchronizePlayerPosition)
        ensures
            p == (SynchronizePlayerPosition { x, y, z, yaw, pitch, flags, dismount }),
    {
        SynchronizePlayerPosition { x, y, z, yaw, pitch, flags, dismount }
    }

    /// The packet that puts a client at `player`'s position and rotation.
    pub fn from_player(player: &Player, flags: u8, dismount: bool) -> (p:
        SynchronizePlayerPosition)
        ensures
            p == (SynchronizePlayerPosition {
                x: player.x_bits,
                y: player.y_bits,
                z: player.z_bits,
                yaw: player.yaw_bits,
                pitch: player.pitch_bits,
                flags,
                dismount,
            }),
    {
        SynchronizePlayerPosition::new(
            player.x_bits,
            player.y_bits,
            player.z_bits,
            player.yaw_bits,
            player.pitch_bits,
            flags,
            dismount,
        )
    }

    /// Appends the body of `packet` to `buffer`.
    pub fn serialize(packet: &SynchronizePlayerPosition, buffer: &mut Vec<u8>)
        ensures
            final(buffer)@ == old(buffer)@ + sync_position_bytes(*packet),
    {
        push_be_unsigned(buffer, packet.x as u128, 8);
        push_be_unsigned(buffer, packet.y as u128, 8);
        push_be_unsigned(buffer, packet.z as u128, 8);
        push_be_unsigned(buffer, packet.yaw as u128, 4);
        push_be_unsigned(buffer, packet.pitch as u128, 4);
        buffer.push(packet.flags);
        write_var_int(buffer, 0);
        buffer.push(bool_to_byte(packet.dismount));
        assert(final(buffer)@ =~= old(buffer)@ + sync_position_bytes(*packet));
    }
}

} // verus!
