//! The wire encoding of relayed messages.
//!
//! A relay line is serialized once per inbound message into a compact
//! structured-value binary payload (MessagePack), and the same bytes are
//! shared by every peer the message fans out to. Peers decode the payload
//! back to the relay line and split it into sender name and text.

use vstd::prelude::*;
use crate::message::ChatMessage;
use crate::message::format_relay_line;
use crate::message::parse_relay_line;
use crate::message::relay_line_spec;

verus! {

/// The MessagePack encoding of a string value.
pub uninterp spec fn msgpack_of(s: Seq<char>) -> Seq<u8>;

/// Strings whose MessagePack encoding is faithful: the string header
/// carries the byte length in at most 32 bits, and a string of fewer than
/// 2^30 characters stays below 2^32 bytes in UTF-8 (at most four bytes per
/// character), so nothing of it is truncated on the wire.
pub open spec fn wire_faithful(s: Seq<char>) -> bool {
    s.len() < 0x4000_0000
}

/// Relies on rmp_serde::to_vec: the MessagePack encoding of a string value
/// is a function of its characters alone, and serializing a string into an
/// in-memory byte vector succeeds — the writer is the vector itself, which
/// fails only if allocation fails (left aside here as everywhere).
#[verifier::external_body]
fn encode_string(s: &str) -> (r: Vec<u8>)
    ensures
        r@ == msgpack_of(s@),
{
    rmp_serde::to_vec(s).unwrap()
}

/// The decode result `r` is faithful to `bytes`: whenever `bytes` is the
/// MessagePack encoding of a string short enough for a faithful encoding,
/// decoding succeeded and returned that string.
pub open spec fn decodes_to(bytes: Seq<u8>, r: Option<String>) -> bool {
    forall|s: Seq<char>|
        wire_faithful(s) && bytes == msgpack_of(s) ==> (r matches Some(t) && t@ == s)
}

/// Relies on rmp_serde::from_slice: bytes that rmp_serde::to_vec produced
/// for a string value decode back to exactly that string, as long as the
/// string is short enough that its encoded length header was not truncated.
#[verifier::external_body]
fn decode_string(bytes: &[u8]) -> (r: Option<String>)
    ensures
        decodes_to(bytes@, r),
{
    rmp_serde::from_slice(bytes).ok()
}

/// Build and serialize the relay line for `name` and `text`.
pub fn encode_relay_line(name: &str, text: &str) -> (payload: Vec<u8>)
    ensures
        payload@ == msgpack_of(relay_line_spec(name@, text@)),
{
    let line = format_relay_line(name, text);
    encode_string(line.as_str())
}

/// Decode a relayed payload back to the sender's name and the message text.
///
/// Every payload produced by `encode_relay_line` decodes to exactly the
/// name and text it was built from — whatever characters they hold — as
/// long as the relay line is short enough for a faithful encoding.
pub fn decode_relay_line(bytes: &[u8]) -> (r: Option<ChatMessage>)
    ensures
        forall|name: Seq<char>, text: Seq<char>|
            wire_faithful(relay_line_spec(name, text)) && bytes@ == msgpack_of(
                relay_line_spec(name, text),
            ) ==> (r matches Some(m) && m.user_name@ == name && m.content@ == text),
{
    let decoded = decode_string(bytes);
    match decoded {
        Option::None => {
            proof {
                assert forall|name: Seq<char>, text: Seq<char>|
                    wire_faithful(relay_line_spec(name, text)) && bytes@ == msgpack_of(
                        relay_line_spec(name, text),
                    ) implies false by {
                    assert(bytes@ == msgpack_of(relay_line_spec(name, text)));
                }
            }
            Option::None
        },
        Option::Some(line) => {
            let r = parse_relay_line(line.as_str());
            proof {
                assert forall|name: Seq<char>, text: Seq<char>|
                    wire_faithful(relay_line_spec(name, text)) && bytes@ == msgpack_of(
                        relay_line_spec(name, text),
                    ) implies (r matches Some(m) && m.user_name@ == name && m.content@
                    == text) by {
                    assert(bytes@ == msgpack_of(relay_line_spec(name, text)));
                    assert(line@ == relay_line_spec(name, text));
                }
            }
            r
        },
    }
}

} // verus!
