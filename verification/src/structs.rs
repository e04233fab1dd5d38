//! The records that the server keeps and answers with.

use vstd::prelude::*;

verus! {

/// A connected player. Coordinates and angles are held as the IEEE 754 bit patterns of
/// the `f64` position and the `f32` rotation, which is how they travel on the wire and
/// in the save file.
pub struct Player {
    pub username: String,
    pub uuid: u128,
    pub entity_id: i32,
    /// Bits of the `f64` x coordinate.
    pub x_bits: u64,
    /// Bits of the `f64` y coordinate.
    pub y_bits: u64,
    /// Bits of the `f64` z coordinate.
    pub z_bits: u64,
    /// Bits of the `f32` yaw.
    pub yaw_bits: u32,
    /// Bits of the `f32` pitch.
    pub pitch_bits: u32,
    pub gamemode: u8,
}

impl Clone for Player {
    fn clone(&self) -> (r: Self)
        ensures
            r == *self,
    {
        Player {
            username: self.username.clone(),
            uuid: self.uuid,
            entity_id: self.entity_id,
            x_bits: self.x_bits,
            y_bits: self.y_bits,
            z_bits: self.z_bits,
            yaw_bits: self.yaw_bits,
            pitch_bits: self.pitch_bits,
            gamemode: self.gamemode,
        }
    }
}

/// Game version shown in the server list.
pub struct StatusVersion {
    pub name: String,
    pub protocol: i32,
}

/// One player shown in the server list: name and hyphenated UUID.
pub struct StatusPlayers {
    pub name: String,
    pub id: String,
}

/// Player counts and sample shown in the server list.
pub struct StatusPlayerCount {
    pub max: i32,
    pub online: i32,
    pub sample: Vec<StatusPlayers>,
}

/// Message of the day shown in the server list.
pub struct StatusDescription {
    pub text: String,
}

/// The answer to a status request.
pub struct ServerStatus {
    pub version: StatusVersion,
    pub players: StatusPlayerCount,
    pub description: StatusDescription,
    pub enforces_secure_chat: bool,
}

/// A packet handed from one connection to the others: its body, its id, and the entity
/// of the player it comes from (who does not get it back).
pub struct Packet {
    pub data: Vec<u8>,
    pub packet_id: i32,
    pub entity_id: i32,
}

impl Clone for Packet {
    fn clone(&self) -> (r: Self)
        ensures
            r.data@ == self.data@,
            r.packet_id == self.packet_id,
            r.entity_id == self.entity_id,
    {
        Packet { data: self.data.clone(), packet_id: self.packet_id, entity_id: self.entity_id }
    }
}

impl Packet {
    /// Whether this packet goes to the player whose entity is `entity_id`: to everyone
    /// but its sender.
    pub fn is_for(&self, entity_id: i32) -> (r: bool)
        ensures
            r == (self.entity_id != entity_id),
    {
        self.entity_id != entity_id
    }
}

} // verus!
