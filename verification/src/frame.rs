//! Framing of outgoing packets and the chat packets built on it.

use vstd::prelude::*;

use crate::strings::{chat_component, string_encoding, write_string_chat};
use crate::varint::{
    lemma_var_int_read_after_write, var_int_encoding, var_int_readable, var_int_size,
    var_int_value, write_var_int,
};

verus! {

/// The bytes sent for a packet with id `id` and body `body`: the length of what follows
/// as a var-int, then the id as a var-int, then the body.
pub open spec fn framed_packet(id: i32, body: Seq<u8>) -> Seq<u8> {
    let data = var_int_encoding(id as int) + body;
    var_int_encoding((data.len() as i32) as int) + data
}

/// Frames the body in `buffer` as packet `id`, returns the bytes to send and empties
/// `buffer`.
pub fn frame_packet(buffer: &mut Vec<u8>, id: i32) -> (packet: Vec<u8>)
    ensures
        packet@ == framed_packet(id, old(buffer)@),
        final(buffer)@ == Seq::<u8>::empty(),
{
    let mut data_buffer: Vec<u8> = Vec::new();
    write_var_int(&mut data_buffer, id);
    data_buffer.append(buffer);
    let mut packet: Vec<u8> = Vec::new();
    write_var_int(&mut packet, data_buffer.len() as i32);
    packet.append(&mut data_buffer);
    assert(packet@ =~= framed_packet(id, old(buffer)@));
    packet
}

/// A framed packet reads back as the receiving side reads it: the length var-int gives
/// the length of the rest, within which the id var-int gives `id` and the body follows;
/// this holds for a non-negative id and a packet whose length fits an `i32`.
pub proof fn lemma_framed_packet_reads_back(id: i32, body: Seq<u8>, rest: Seq<u8>)
    requires
        id >= 0,
        (var_int_encoding(id as int) + body).len() <= i32::MAX,
    ensures
        ({
            let f = framed_packet(id, body) + rest;
            let n = var_int_size(f);
            let data = f.subrange(n as int, n + var_int_value(f));
            &&& var_int_readable(f)
            &&& n + var_int_value(f) <= f.len()
            &&& data == var_int_encoding(id as int) + body
            &&& var_int_readable(data)
            &&& var_int_value(data) == id
            &&& data.skip(var_int_size(data) as int) == body
        }),
{
    let data = var_int_encoding(id as int) + body;
    let len = data.len() as i32;
    let f = framed_packet(id, body) + rest;
    lemma_var_int_read_after_write(len, data + rest);
    assert(f =~= var_int_encoding(len as int) + (data + rest));
    let n = var_int_size(f);
    assert(f.subrange(n as int, n + var_int_value(f)) =~= data);
    lemma_var_int_read_after_write(id, body);
    assert(data.skip(var_int_size(data) as int) =~= body);
}

/// The body of a chat packet that shows `text` to the player: in the chat box when
/// `position` is 0, above the hot bar when it is 1.
pub open spec fn chat_body(text: Seq<char>, position: u8) -> Seq<u8> {
    string_encoding(chat_component(text)).push(position)
}

/// The body that `send_chat_message` sends: `message` in the chat box.
pub fn chat_message_body(message: &String) -> (body: Vec<u8>)
    ensures
        body@ == chat_body(message@, 0),
{
    let mut buffer: Vec<u8> = Vec::new();
    write_string_chat(&mut buffer, message);
    buffer.push(0);
    assert(buffer@ =~= chat_body(message@, 0));
    buffer
}

/// The body that `send_actionbar` sends: `message` above the hot bar.
pub fn actionbar_body(message: &String) -> (body: Vec<u8>)
    ensures
        body@ == chat_body(message@, 1),
{
    let mut buffer: Vec<u8> = Vec::new();
    write_string_chat(&mut buffer, message);
    buffer.push(1);
    assert(buffer@ =~= chat_body(message@, 1));
    buffer
}

} // verus!
