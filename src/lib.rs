//! Server-list-ping client core: varint codec, packet composition,
//! address resolution decisions and the response-frame reader.

pub mod error;
pub mod packet;
pub mod protocol;
pub mod resolve;
pub mod session;
pub mod varint;

pub use error::PingError;
pub use packet::{
    compose_handshake_packet, compose_status_request_packet, packet_raw_content_add_varint_length,
};
pub use protocol::{
    get_known_protocol_numbers, is_known_protocol_number, ProtocolNum, DEFAULT_PORT, LATEST,
    MINECRAFT_1_7, MINECRAFT_1_8,
};
pub use resolve::{
    pair_with_port, resolve_after_address, resolve_after_service, resolve_literal,
    service_query_name, Candidate, HostLiteral, Ipv4, ResolveStep,
};
pub use session::{next_candidate, prepare_ping, PingPlan};
pub use varint::{decode_varint, encode_varint, VarintError};
