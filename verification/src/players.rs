//! The player list, the server-list answer, and the player save record.

use vstd::prelude::*;

use crate::structs::{
    Player, ServerStatus, StatusDescription, StatusPlayerCount, StatusPlayers, StatusVersion,
};
use crate::wire::{
    be_bytes, be_value, lemma_be_value_of_be_bytes, lemma_pow256_8, push_be_unsigned,
    take_be_front,
};

verus! {

/// The lower-case hex digit for `n` in `0..16`.
pub open spec fn hex_digit(n: int) -> char {
    if n < 10 {
        ('0' as int + n) as char
    } else {
        ('a' as int + (n - 10)) as char
    }
}

/// The `n` lowest hex digits of `v`, most significant first.
pub open spec fn hex_digits(v: int, n: nat) -> Seq<char>
    decreases n,
{
    if n == 0 {
        Seq::empty()
    } else {
        hex_digits(v / 16, (n - 1) as nat).push(hex_digit(v % 16))
    }
}

/// The hyphenated form `xxxxxxxx-xxxx-xxxx-xxxx-xxxxxxxxxxxx` of a UUID: the 32 lower-case
/// hex digits of its 128-bit value, split 8-4-4-4-12.
pub open spec fn hyphenated_uuid(v: u128) -> Seq<char> {
    let d = hex_digits(v as int, 32);
    d.subrange(0, 8) + seq!['-'] + d.subrange(8, 12) + seq!['-'] + d.subrange(12, 16) + seq!['-']
        + d.subrange(16, 20) + seq!['-'] + d.subrange(20, 32)
}

/// `uuid::Uuid::from_u128(v).to_string()`: `from_u128` takes the 16 bytes of `v` in
/// big-endian order, and `Uuid`'s `Display` writes them hyphenated in lower-case hex.
#[verifier::external_body]
fn uuid_to_hyphenated(v: u128) -> (s: String)
    ensures
        s@ == hyphenated_uuid(v),
{
    uuid::Uuid::from_u128(v).to_string()
}

/// Whether some player in `players` is named `username`.
pub fn has_player(players: &Vec<Player>, username: &String) -> (r: bool)
    ensures
        r == exists|i: int| 0 <= i < players@.len() && players@[i].username@ == username@,
{
    let mut i: usize = 0;
    while i < players.len()
        invariant
            i <= players@.len(),
            forall|j: int| 0 <= j < i ==> players@[j].username@ != username@,
        decreases players@.len() - i,
    {
        if players[i].username == *username {
            return true;
        }
        i = i + 1;
    }
    false
}

/// `i` is the first index in `players` of a player named `name`.
pub open spec fn is_first_named(players: Seq<Player>, name: Seq<char>, i: int) -> bool {
    &&& 0 <= i < players.len()
    &&& players[i].username@ == name
    &&& forall|j: int| 0 <= j < i ==> players[j].username@ != name
}

/// Index of the first player named `username`, if there is one.
fn find_player(players: &Vec<Player>, username: &String) -> (r: Option<usize>)
    ensures
        r matches Some(i) ==> is_first_named(players@, username@, i as int),
        r is None ==> forall|j: int| 0 <= j < players@.len() ==> players@[j].username@ != username@,
{
    let mut i: usize = 0;
    while i < players.len()
        invariant
            i <= players@.len(),
            forall|j: int| 0 <= j < i ==> players@[j].username@ != username@,
        decreases players@.len() - i,
    {
        if players[i].username == *username {
            return Some(i);
        }
        i = i + 1;
    }
    None
}

/// Removes the first player named `username` from `players`, if there is one.
pub fn disconnect_player(players: &mut Vec<Player>, username: &String)
    ensures
        (forall|j: int| 0 <= j < old(players)@.len() ==> old(players)@[j].username@ != username@)
            ==> final(players)@ == old(players)@,
        forall|i: int|
            is_first_named(old(players)@, username@, i) ==> final(players)@ == old(
                players,
            )@.remove(i),
{
    match find_player(players, username) {
        Some(index) => {
            players.remove(index);
        },
        None => {},
    }
}

/// A copy of the first player named `username`, if there is one.
pub fn _get_player(players: &Vec<Player>, username: &String) -> (r: Option<Player>)
    ensures
        r matches Some(p) ==> exists|i: int|
            is_first_named(players@, username@, i) && p == players@[i],
        r is None ==> forall|j: int| 0 <= j < players@.len() ==> players@[j].username@ != username@,
{
    match find_player(players, username) {
        Some(index) => Some(players[index].clone()),
        None => None,
    }
}

/// The server-list sample: each player's name and hyphenated UUID, in order.
pub fn populate_players(players: &Vec<Player>) -> (r: Vec<StatusPlayers>)
    ensures
        r@.len() == players@.len(),
        forall|i: int|
            0 <= i < players@.len() ==> r@[i].name@ == players@[i].username@ && r@[i].id@
                == hyphenated_uuid(players@[i].uuid),
{
    let mut plrs: Vec<StatusPlayers> = Vec::new();
    let mut i: usize = 0;
    while i < players.len()
        invariant
            i <= players@.len(),
            plrs@.len() == i,
            forall|k: int|
                0 <= k < i ==> plrs@[k].name@ == players@[k].username@ && plrs@[k].id@
                    == hyphenated_uuid(players@[k].uuid),
        decreases players@.len() - i,
    {
        let player = StatusPlayers {
            name: players[i].username.clone(),
            id: uuid_to_hyphenated(players[i].uuid),
        };
        plrs.push(player);
        i = i + 1;
    }
    plrs
}

/// The answer to a status request: version `1.19.3` (protocol 761), at most 20 players,
/// the current ones as count and sample, and the message `hello aa`.
pub fn server_status(players: &Vec<Player>) -> (r: ServerStatus)
    ensures
        r.version.name@ == "1.19.3"@,
        r.version.protocol == 761,
        r.players.max == 20,
        r.players.online == players@.len() as i32,
        r.players.sample@.len() == players@.len(),
        forall|i: int|
            0 <= i < players@.len() ==> r.players.sample@[i].name@ == players@[i].username@
                && r.players.sample@[i].id@ == hyphenated_uuid(players@[i].uuid),
        r.description.text@ == "hello aa"@,
        !r.enforces_secure_chat,
{
    ServerStatus {
        version: StatusVersion { name: String::from_str("1.19.3"), protocol: 761 },
        players: StatusPlayerCount {
            max: 20,
            online: players.len() as i32,
            sample: populate_players(players),
        },
        description: StatusDescription { text: String::from_str("hello aa") },
        enforces_secure_chat: false,
    }
}

/// Bits of the `f64` 8.0.
pub const SPAWN_X_BITS: u64 = 0x4020_0000_0000_0000u64;

/// Bits of the `f64` 90.0.
pub const SPAWN_Y_BITS: u64 = 0x4056_8000_0000_0000u64;

/// Bits of the `f64` 8.0.
pub const SPAWN_Z_BITS: u64 = 0x4020_0000_0000_0000u64;

impl Player {
    /// A player who has not played before: at (8.0, 90.0, 8.0), looking straight ahead
    /// (yaw and pitch 0.0), in game mode 0.
    pub fn new(username: String, uuid: u128, entity_id: i32) -> (p: Player)
        ensures
            p.username@ == username@,
            p.uuid == uuid,
            p.entity_id == entity_id,
            p.x_bits == SPAWN_X_BITS,
            p.y_bits == SPAWN_Y_BITS,
            p.z_bits == SPAWN_Z_BITS,
            p.yaw_bits == 0,
            p.pitch_bits == 0,
            p.gamemode == 0,
    {
        Player {
            username,
            uuid,
            entity_id,
            x_bits: SPAWN_X_BITS,
            y_bits: SPAWN_Y_BITS,
            z_bits: SPAWN_Z_BITS,
            yaw_bits: 0,
            pitch_bits: 0,
            gamemode: 0,
        }
    }
}

/// The bytes of a player's save file: x, y and z as eight big-endian bytes each, yaw
/// and pitch as four each, then the game mode.
pub open spec fn player_record_bytes(p: Player) -> Seq<u8> {
    be_bytes(p.x_bits as int, 8) + be_bytes(p.y_bits as int, 8) + be_bytes(p.z_bits as int, 8)
        + be_bytes(p.yaw_bits as int, 4) + be_bytes(p.pitch_bits as int, 4) + seq![p.gamemode]
}

/// The bytes that a player's save file holds.
pub fn player_record(player: &Player) -> (r: Vec<u8>)
    ensures
        r@ == player_record_bytes(*player),
{
    let mut buffer: Vec<u8> = Vec::new();
    push_be_unsigned(&mut buffer, player.x_bits as u128, 8);
    push_be_unsigned(&mut buffer, player.y_bits as u128, 8);
    push_be_unsigned(&mut buffer, player.z_bits as u128, 8);
    push_be_unsigned(&mut buffer, player.yaw_bits as u128, 4);
    push_be_unsigned(&mut buffer, player.pitch_bits as u128, 4);
    buffer.push(player.gamemode);
    assert(buffer@ =~= player_record_bytes(*player));
    buffer
}

/// Where a player's save file lives: `./players/<username>.bin`.
pub fn player_file_path(username: &String) -> (r: String)
    ensures
        r@ == "./players/"@ + username@ + ".bin"@,
{
    let mut path = String::from_str("./players/");
    path.append(username.as_str());
    path.append(".bin");
    path
}

/// Loads position, rotation and game mode from the bytes of a save file, in the layout
/// of `player_record_bytes`, and empties `buffer`.
pub fn load_player_record(player: &mut Player, buffer: &mut Vec<u8>)
    requires
        old(buffer)@.len() >= 33,
    ensures
        final(player).username == old(player).username,
        final(player).uuid == old(player).uuid,
        final(player).entity_id == old(player).entity_id,
        final(player).x_bits == be_value(old(buffer)@.subrange(0, 8)),
        final(player).y_bits == be_value(old(buffer)@.subrange(8, 16)),
        final(player).z_bits == be_value(old(buffer)@.subrange(16, 24)),
        final(player).yaw_bits == be_value(old(buffer)@.subrange(24, 28)),
        final(player).pitch_bits == be_value(old(buffer)@.subrange(28, 32)),
        final(player).gamemode == old(buffer)@[32],
        final(buffer)@ == Seq::<u8>::empty(),
{
    let ghost b = buffer@;
    proof {
        lemma_pow256_8();
    }
    let x = take_be_front(buffer, 8);
    assert(buffer@ =~= b.skip(8));
    let y = take_be_front(buffer, 8);
    assert(buffer@ =~= b.skip(16));
    let z = take_be_front(buffer, 8);
    assert(buffer@ =~= b.skip(24));
    let yaw = take_be_front(buffer, 4);
    assert(buffer@ =~= b.skip(28));
    let pitch = take_be_front(buffer, 4);
    assert(buffer@ =~= b.skip(32));
    let gamemode = buffer.remove(0);
    assert(b.take(8) =~= b.subrange(0, 8));
    assert(b.skip(8).take(8) =~= b.subrange(8, 16));
    assert(b.skip(16).take(8) =~= b.subrange(16, 24));
    assert(b.skip(24).take(4) =~= b.subrange(24, 28));
    assert(b.skip(28).take(4) =~= b.subrange(28, 32));
    player.x_bits = x as u64;
    player.y_bits = y as u64;
    player.z_bits = z as u64;
    player.yaw_bits = yaw as u32;
    player.pitch_bits = pitch as u32;
    player.gamemode = gamemode;
    buffer.clear();
}


/// What `load_player_record` takes from the save record of `p` is `p`'s own position,
/// rotation and game mode: saving and loading a player restores them.
pub proof fn lemma_player_record_roundtrip(p: Player)
    ensures
        player_record_bytes(p).len() == 33,
        be_value(player_record_bytes(p).subrange(0, 8)) == p.x_bits,
        be_value(player_record_bytes(p).subrange(8, 16)) == p.y_bits,
        be_value(player_record_bytes(p).subrange(16, 24)) == p.z_bits,
        be_value(player_record_bytes(p).subrange(24, 28)) == p.yaw_bits,
        be_value(player_record_bytes(p).subrange(28, 32)) == p.pitch_bits,
        player_record_bytes(p)[32] == p.gamemode,
{
    lemma_pow256_8();
    lemma_be_value_of_be_bytes(p.x_bits as int, 8);
    lemma_be_value_of_be_bytes(p.y_bits as int, 8);
    lemma_be_value_of_be_bytes(p.z_bits as int, 8);
    lemma_be_value_of_be_bytes(p.yaw_bits as int, 4);
    lemma_be_value_of_be_bytes(p.pitch_bits as int, 4);
    let r = player_record_bytes(p);
    assert(r.subrange(0, 8) =~= be_bytes(p.x_bits as int, 8));
    assert(r.subrange(8, 16) =~= be_bytes(p.y_bits as int, 8));
    assert(r.subrange(16, 24) =~= be_bytes(p.z_bits as int, 8));
    assert(r.subrange(24, 28) =~= be_bytes(p.yaw_bits as int, 4));
    assert(r.subrange(28, 32) =~= be_bytes(p.pitch_bits as int, 4));
}


/// When names are unique in the list, the player that `disconnect_player` removes is
/// no longer found by `has_player`: no one left in the list has that name.
pub proof fn lemma_disconnected_player_is_gone(players: Seq<Player>, name: Seq<char>, i: int)
    requires
        is_first_named(players, name, i),
        forall|j: int| 0 <= j < players.len() && j != i ==> players[j].username@ != name,
    ensures
        forall|j: int|
            0 <= j < players.remove(i).len() ==> players.remove(i)[j].username@ != name,
{
    assert forall|j: int| 0 <= j < players.remove(i).len() implies players.remove(i)[j].username@
        != name by {
        if j < i {
            assert(players.remove(i)[j] == players[j]);
        } else {
            assert(players.remove(i)[j] == players[j + 1]);
        }
    }
}

} // verus!
