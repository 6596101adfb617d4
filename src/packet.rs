use vstd::prelude::*;
use vstd::utf8::encode_utf8;

use crate::protocol::ProtocolNum;
use crate::varint::{
    encode_varint, lemma_encoding_len_u32, lemma_varint_round_trip, varint_decode_at, varint_encoding,
    VarintError,
};

verus! {

/// The largest length that a length prefix may carry: a non-negative `i32`.
pub const MAX_PREFIXED_LEN: usize = 0x7fff_ffff;

/// `body` preceded by the varint of its length.
pub open spec fn length_prefixed(body: Seq<u8>) -> Seq<u8> {
    varint_encoding(body.len()) + body
}

/// A port as two bytes, most significant first.
pub open spec fn port_bytes(port: u16) -> Seq<u8> {
    seq![(port / 256) as u8, (port % 256) as u8]
}

/// What follows the handshake's length prefix: packet id 0, the protocol
/// version, the host as a length-prefixed string, the port, and next state 1.
pub open spec fn handshake_body(host: Seq<u8>, port: u16, protocol: ProtocolNum) -> Seq<u8> {
    seq![0u8] + varint_encoding(protocol as nat) + length_prefixed(host) + port_bytes(port) + seq![
        1u8,
    ]
}

/// The whole handshake packet for a host given as UTF-8 bytes.
pub open spec fn handshake_packet(host: Seq<u8>, port: u16, protocol: ProtocolNum) -> Seq<u8> {
    length_prefixed(handshake_body(host, port, protocol))
}

/// The status request: an empty packet with id 0.
pub open spec fn status_request_packet() -> Seq<u8> {
    seq![1u8, 0u8]
}

/// Prefixing a buffer with its length can be undone: the leading varint
/// decodes to the buffer's length, and the buffer follows right after it.
pub proof fn lemma_length_prefix_recovers_length(content: Seq<u8>)
    requires
        content.len() <= MAX_PREFIXED_LEN,
    ensures
        varint_decode_at(length_prefixed(content), 0) == Ok::<(u32, nat), VarintError>(
            (content.len() as u32, varint_encoding(content.len()).len()),
        ),
        length_prefixed(content).subrange(
            varint_encoding(content.len()).len() as int,
            length_prefixed(content).len() as int,
        ) == content,
{
    let n = content.len() as u32;
    lemma_varint_round_trip(n, content);
    let e = varint_encoding(content.len());
    assert((e + content).subrange(e.len() as int, (e + content).len() as int) =~= content);
}

/// Puts the varint of the buffer's length in front of it.
pub fn packet_raw_content_add_varint_length(packet_content: &mut Vec<u8>)
    requires
        old(packet_content)@.len() <= MAX_PREFIXED_LEN,
    ensures
        final(packet_content)@ == length_prefixed(old(packet_content)@),
{
    let mut out = encode_varint(packet_content.len() as u32);
    out.append(packet_content);
    *packet_content = out;
}

/// Builds the handshake that announces `host`, `port` and `protocol` and
/// asks for the status state.
pub fn compose_handshake_packet(host: &String, port: &u16, protocol: &ProtocolNum) -> (r: Vec<u8>)
    requires
        encode_utf8(host@).len() + 12 <= MAX_PREFIXED_LEN,
    ensures
        r@ == handshake_packet(encode_utf8(host@), *port, *protocol),
{
    let bytes: &[u8] = host.as_str().as_bytes();
    let host_len: usize = bytes.len();
    proof {
        lemma_encoding_len_u32(*protocol as u32);
        lemma_encoding_len_u32(host_len as u32);
    }
    let mut body: Vec<u8> = Vec::new();
    body.push(0u8);
    let mut protocol_varint = encode_varint(*protocol as u32);
    body.append(&mut protocol_varint);
    let mut host_len_varint = encode_varint(host_len as u32);
    body.append(&mut host_len_varint);
    body.extend_from_slice(bytes);
    body.push((*port / 256) as u8);
    body.push((*port % 256) as u8);
    body.push(1u8);
    assert(body@ =~= handshake_body(encode_utf8(host@), *port, *protocol));
    packet_raw_content_add_varint_length(&mut body);
    body
}

/// Builds the status request packet.
pub fn compose_status_request_packet() -> (r: Vec<u8>)
    ensures
        r@ == status_request_packet(),
        r@ == length_prefixed(seq![0u8]),
{
    assert(varint_encoding(1) =~= seq![1u8]);
    assert(length_prefixed(seq![0u8]) =~= seq![1u8, 0u8]);
    vec![1u8, 0u8]
}

} // verus!
