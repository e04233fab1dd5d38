//! Protocol building blocks of a small Minecraft (1.19.3) server: var-ints, strings,
//! block positions, outgoing packet bodies and the player bookkeeping around them.

pub mod varint;
pub mod wire;
pub mod strings;
pub mod position;
pub mod packets;
pub mod structs;
pub mod players;
pub mod packet_out;
pub mod frame;
pub mod session;
pub mod commands;
pub mod play;
