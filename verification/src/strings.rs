//! Strings on the wire: a var-int byte length followed by the UTF-8 bytes.

use vstd::prelude::*;
use vstd::utf8::{
    decode_utf8, encode_utf8, encode_utf8_decode_utf8, encode_utf8_valid_utf8, valid_utf8,
};

use crate::varint::{
    lemma_var_int_read_after_write, read_var_int_buf, var_int_encoding, var_int_readable, var_int_size, var_int_size_of_front,
    var_int_value, write_var_int,
};
use crate::wire::take_front;

verus! {

/// The bytes that `write_string` appends for the characters `s`: the byte length as a
/// var-int (taken as an `i32`), then the UTF-8 encoding.
pub open spec fn string_encoding(s: Seq<char>) -> Seq<u8> {
    var_int_encoding((encode_utf8(s).len() as i32) as int) + encode_utf8(s)
}

/// The characters `{"text":"` that open a chat component.
pub open spec fn chat_prefix() -> Seq<char> {
    seq!['{', '"', 't', 'e', 'x', 't', '"', ':', '"']
}

/// The characters `"}` that close a chat component.
pub open spec fn chat_suffix() -> Seq<char> {
    seq!['"', '}']
}

/// The JSON chat component `{"text":"<text>"}`, with `text` put in as it is.
pub open spec fn chat_component(text: Seq<char>) -> Seq<char> {
    chat_prefix() + text + chat_suffix()
}

/// Where the string at the front of `buf` ends: past its length and its bytes.
pub open spec fn string_field_end(buf: Seq<u8>) -> int {
    var_int_size(buf) + var_int_value(buf)
}

/// The bytes of the string at the front of `buf`, its length left out.
pub open spec fn string_field_bytes(buf: Seq<u8>) -> Seq<u8> {
    buf.subrange(var_int_size(buf) as int, string_field_end(buf))
}

/// The front of `buf` holds a readable length, that many bytes, and they are UTF-8.
pub open spec fn string_readable(buf: Seq<u8>) -> bool {
    &&& var_int_readable(buf)
    &&& string_field_end(buf) <= buf.len()
    &&& valid_utf8(string_field_bytes(buf))
}

/// `String::from_utf8`: the bytes as a `String` when they are valid UTF-8, the string
/// then holding the characters that they encode; `None` when they are not.
#[verifier::external_body]
fn string_from_utf8(bytes: Vec<u8>) -> (r: Option<String>)
    ensures
        r is Some <==> valid_utf8(bytes@),
        r matches Some(s) ==> s@ == decode_utf8(bytes@),
{
    String::from_utf8(bytes).ok()
}

/// The UTF-8 bytes of `s`.
pub fn string_bytes(s: &String) -> (b: Vec<u8>)
    ensures
        b@ == encode_utf8(s@),
{
    vstd::slice::slice_to_vec(s.as_str().as_bytes())
}

/// Appends `string` with its byte length in front.
pub fn write_string(buffer: &mut Vec<u8>, string: String)
    ensures
        final(buffer)@ == old(buffer)@ + string_encoding(string@),
{
    let mut bytes = string_bytes(&string);
    write_var_int(buffer, bytes.len() as i32);
    buffer.append(&mut bytes);
    assert(final(buffer)@ =~= old(buffer)@ + string_encoding(string@));
}

/// Appends the chat component `{"text":"<string>"}` as a string.
pub fn write_string_chat(buffer: &mut Vec<u8>, string: &String)
    ensures
        final(buffer)@ == old(buffer)@ + string_encoding(chat_component(string@)),
{
    let mut component = String::from_str("{\"text\":\"");
    component.append(string.as_str());
    component.append("\"}");
    proof {
        reveal_strlit("{\"text\":\"");
        reveal_strlit("\"}");
        assert(component@ =~= chat_component(string@));
    }
    write_string(buffer, component);
}

/// Removes the string at the front of `buffer` and returns it.
pub fn read_string_buf(buffer: &mut Vec<u8>) -> (s: String)
    requires
        string_readable(old(buffer)@),
    ensures
        s@ == decode_utf8(string_field_bytes(old(buffer)@)),
        final(buffer)@ == old(buffer)@.skip(string_field_end(old(buffer)@)),
{
    let ghost buf = buffer@;
    let stringlen = read_var_int_buf(buffer).unwrap() as usize;
    let bytes = take_front(buffer, stringlen);
    assert(bytes@ =~= string_field_bytes(buf));
    assert(buffer@ =~= buf.skip(string_field_end(buf)));
    string_from_utf8(bytes).unwrap()
}

/// Removes the string at the front of `buffer` and returns it when it is readable;
/// otherwise returns `None` and leaves `buffer` as it was.
pub fn try_read_string_buf(buffer: &mut Vec<u8>) -> (r: Option<String>)
    ensures
        r is Some <==> string_readable(old(buffer)@),
        r matches Some(s) ==> s@ == decode_utf8(string_field_bytes(old(buffer)@))
            && final(buffer)@ == old(buffer)@.skip(string_field_end(old(buffer)@)),
        r is None ==> final(buffer)@ == old(buffer)@,
{
    let ghost buf = buffer@;
    let size = match var_int_size_of_front(buffer) {
        Some(n) => n,
        None => return None,
    };
    let mut copy = buffer.clone();
    assert(copy@ =~= buf);
    let value = read_var_int_buf(&mut copy).unwrap();
    let stringlen = value as usize;
    assert(copy@ == buf.skip(size as int));
    assert(stringlen == var_int_value(buf));
    if stringlen > copy.len() {
        return None;
    }
    let bytes = take_front(&mut copy, stringlen);
    assert(bytes@ =~= string_field_bytes(buf));
    match string_from_utf8(bytes) {
        Some(_) => Some(read_string_buf(buffer)),
        None => None,
    }
}


/// A string written with `write_string` reads back unchanged with `read_string_buf`,
/// whatever bytes follow it, as long as its UTF-8 length fits an `i32`.
pub proof fn lemma_string_read_after_write(s: Seq<char>, rest: Seq<u8>)
    requires
        encode_utf8(s).len() <= i32::MAX,
    ensures
        string_readable(string_encoding(s) + rest),
        decode_utf8(string_field_bytes(string_encoding(s) + rest)) == s,
        string_field_end(string_encoding(s) + rest) == string_encoding(s).len(),
{
    let e = encode_utf8(s);
    let n = e.len() as i32;
    let lenbytes = var_int_encoding(n as int);
    let buf = string_encoding(s) + rest;
    lemma_var_int_read_after_write(n, e + rest);
    assert(buf =~= lenbytes + (e + rest));
    assert(string_field_bytes(buf) =~= e);
    encode_utf8_valid_utf8(s);
    encode_utf8_decode_utf8(s);
}

} // verus!
