//! Ids of the packets that the server sends, by connection state.

use vstd::prelude::*;

verus! {

/// Clientbound packets of the play state.
#[derive(Clone, Copy, Debug, PartialEq, Eq, Structural)]
pub enum CPlayPacketid {
    SpawnPlayer,
    SwingArm,
    BlockUpdate,
    Kick,
    ContainerContent,
    GameEvent,
    KeepAlive,
    LoadChunk,
    LoginPlay,
    EntityUpdatePos,
    EntityUpdatePosAndRot,
    EntityUpdateRot,
    RemoveEntities,
    HeadRot,
    PlayerLeft,
    PlayerInfo,
    PlayerPos,
    CenterChunk,
    SetDefaultSpawn,
    EntityMetadata,
    Chat,
    PlayerTeleport,
}

impl CPlayPacketid {
    /// The id of this packet on the wire.
    pub open spec fn spec_id(self) -> i32 {
        match self {
            CPlayPacketid::SpawnPlayer => 0x02,
            CPlayPacketid::SwingArm => 0x03,
            CPlayPacketid::BlockUpdate => 0x09,
            CPlayPacketid::Kick => 0x17,
            CPlayPacketid::ContainerContent => 0x10,
            CPlayPacketid::GameEvent => 0x1C,
            CPlayPacketid::KeepAlive => 0x1F,
            CPlayPacketid::LoadChunk => 0x20,
            CPlayPacketid::LoginPlay => 0x24,
            CPlayPacketid::EntityUpdatePos => 0x27,
            CPlayPacketid::EntityUpdatePosAndRot => 0x28,
            CPlayPacketid::EntityUpdateRot => 0x29,
            CPlayPacketid::RemoveEntities => 0x3A,
            CPlayPacketid::HeadRot => 0x3E,
            CPlayPacketid::PlayerLeft => 0x35,
            CPlayPacketid::PlayerInfo => 0x36,
            CPlayPacketid::PlayerPos => 0x38,
            CPlayPacketid::CenterChunk => 0x4A,
            CPlayPacketid::SetDefaultSpawn => 0x4C,
            CPlayPacketid::EntityMetadata => 0x4E,
            CPlayPacketid::Chat => 0x60,
            CPlayPacketid::PlayerTeleport => 0x64,
        }
    }

    /// The id of this packet on the wire.
    pub fn id(self) -> (r: i32)
        ensures
            r == self.spec_id(),
    {
        match self {
            CPlayPacketid::SpawnPlayer => 0x02,
            CPlayPacketid::SwingArm => 0x03,
            CPlayPacketid::BlockUpdate => 0x09,
            CPlayPacketid::Kick => 0x17,
            CPlayPacketid::ContainerContent => 0x10,
            CPlayPacketid::GameEvent => 0x1C,
            CPlayPacketid::KeepAlive => 0x1F,
            CPlayPacketid::LoadChunk => 0x20,
            CPlayPacketid::LoginPlay => 0x24,
            CPlayPacketid::EntityUpdatePos => 0x27,
            CPlayPacketid::EntityUpdatePosAndRot => 0x28,
            CPlayPacketid::EntityUpdateRot => 0x29,
            CPlayPacketid::RemoveEntities => 0x3A,
            CPlayPacketid::HeadRot => 0x3E,
            CPlayPacketid::PlayerLeft => 0x35,
            CPlayPacketid::PlayerInfo => 0x36,
            CPlayPacketid::PlayerPos => 0x38,
            CPlayPacketid::CenterChunk => 0x4A,
            CPlayPacketid::SetDefaultSpawn => 0x4C,
            CPlayPacketid::EntityMetadata => 0x4E,
            CPlayPacketid::Chat => 0x60,
            CPlayPacketid::PlayerTeleport => 0x64,
        }
    }
}

/// Clientbound packets of the login state.
#[derive(Clone, Copy, Debug, PartialEq, Eq, Structural)]
pub enum CLoginPacketid {
    Kick,
    Success,
}

impl CLoginPacketid {
    /// The id of this packet on the wire.
    pub open spec fn spec_id(self) -> i32 {
        match self {
            CLoginPacketid::Kick => 0x00,
            CLoginPacketid::Success => 0x02,
        }
    }

    /// The id of this packet on the wire.
    pub fn id(self) -> (r: i32)
        ensures
            r == self.spec_id(),
    {
        match self {
            CLoginPacketid::Kick => 0x00,
            CLoginPacketid::Success => 0x02,
        }
    }
}

/// Clientbound packets of the status state.
#[derive(Clone, Copy, Debug, PartialEq, Eq, Structural)]
pub enum CStatusPacketid {
    Status,
    Ping,
}

impl CStatusPacketid {
    /// The id of this packet on the wire.
    pub open spec fn spec_id(self) -> i32 {
        match self {
            CStatusPacketid::Status => 0x00,
            CStatusPacketid::Ping => 0x01,
        }
    }

    /// The id of this packet on the wire.
    pub fn id(self) -> (r: i32)
        ensures
            r == self.spec_id(),
    {
        match self {
            CStatusPacketid::Status => 0x00,
            CStatusPacketid::Ping => 0x01,
        }
    }
}

} // verus!
