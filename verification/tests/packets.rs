use mcserver::packets::{CLoginPacketid, CPlayPacketid, CStatusPacketid};
use mcserver::structs::Packet;

#[test]
fn play_packet_ids() {
    assert_eq!(CPlayPacketid::SpawnPlayer.id(), 0x02);
    assert_eq!(CPlayPacketid::SwingArm.id(), 0x03);
    assert_eq!(CPlayPacketid::BlockUpdate.id(), 0x09);
    assert_eq!(CPlayPacketid::ContainerContent.id(), 0x10);
    assert_eq!(CPlayPacketid::Kick.id(), 0x17);
    assert_eq!(CPlayPacketid::GameEvent.id(), 0x1C);
    assert_eq!(CPlayPacketid::KeepAlive.id(), 0x1F);
    assert_eq!(CPlayPacketid::LoadChunk.id(), 0x20);
    assert_eq!(CPlayPacketid::LoginPlay.id(), 0x24);
    assert_eq!(CPlayPacketid::EntityUpdatePos.id(), 0x27);
    assert_eq!(CPlayPacketid::EntityUpdatePosAndRot.id(), 0x28);
    assert_eq!(CPlayPacketid::EntityUpdateRot.id(), 0x29);
    assert_eq!(CPlayPacketid::PlayerLeft.id(), 0x35);
    assert_eq!(CPlayPacketid::PlayerInfo.id(), 0x36);
    assert_eq!(CPlayPacketid::PlayerPos.id(), 0x38);
    assert_eq!(CPlayPacketid::RemoveEntities.id(), 0x3A);
    assert_eq!(CPlayPacketid::HeadRot.id(), 0x3E);
    assert_eq!(CPlayPacketid::CenterChunk.id(), 0x4A);
    assert_eq!(CPlayPacketid::SetDefaultSpawn.id(), 0x4C);
    assert_eq!(CPlayPacketid::EntityMetadata.id(), 0x4E);
    assert_eq!(CPlayPacketid::Chat.id(), 0x60);
    assert_eq!(CPlayPacketid::PlayerTeleport.id(), 0x64);
}

#[test]
fn login_and_status_packet_ids() {
    assert_eq!(CLoginPacketid::Kick.id(), 0);
    assert_eq!(CLoginPacketid::Success.id(), 2);
    assert_eq!(CStatusPacketid::Status.id(), 0);
    assert_eq!(CStatusPacketid::Ping.id(), 1);
}

#[test]
fn broadcast_skips_its_sender() {
    let packet = Packet { data: vec![1, 2], packet_id: 0x60, entity_id: 5 };
    assert!(!packet.is_for(5));
    assert!(packet.is_for(6));
    let copy = packet.clone();
    assert_eq!(copy.data, vec![1, 2]);
    assert_eq!(copy.packet_id, 0x60);
    assert_eq!(copy.entity_id, 5);
}
