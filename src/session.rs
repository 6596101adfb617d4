use vstd::prelude::*;
use vstd::utf8::encode_utf8;

use crate::error::PingError;
use crate::packet::{
    compose_handshake_packet, compose_status_request_packet, handshake_packet,
    status_request_packet, MAX_PREFIXED_LEN,
};
use crate::protocol::{is_known_protocol_number, known_protocol_numbers, ProtocolNum, DEFAULT_PORT};
use crate::resolve::Candidate;
use crate::varint::{decode_varint, lemma_scan_bounds, varint_decode_at, VarintError};

verus! {

/// The most bytes that one read of the payload asks for.
pub const READ_CHUNK: usize = 4096;

/// The port to connect to: the requested one, or the default for zero.
pub open spec fn effective_port(port: u16) -> u16 {
    if port == 0 {
        DEFAULT_PORT
    } else {
        port
    }
}

/// The host announced in the handshake: the override when it is not empty.
pub open spec fn announced_host(host: Seq<char>, override_host: Seq<char>) -> Seq<char> {
    if override_host.len() == 0 {
        host
    } else {
        override_host
    }
}

/// Everything a ping sends, worked out before any network activity.
#[derive(Debug)]
pub struct PingPlan {
    /// The host to resolve.
    pub lookup_host: String,
    /// The port asked of the resolver.
    pub port: u16,
    /// The handshake packet.
    pub handshake: Vec<u8>,
    /// The status request packet.
    pub status_request: Vec<u8>,
    /// The timeout of each connect, read and write, in seconds.
    pub timeout_secs: u8,
}

/// Checks a ping's inputs, in this order: the host is not empty, the
/// protocol version is known, the timeout is not zero. On success gives the
/// packets to send and the host and port to resolve.
pub fn prepare_ping(
    host: &String,
    port: u16,
    override_host: &String,
    protocol: ProtocolNum,
    timeout: u8,
) -> (r: Result<PingPlan, PingError>)
    requires
        encode_utf8(host@).len() + 12 <= MAX_PREFIXED_LEN,
        encode_utf8(override_host@).len() + 12 <= MAX_PREFIXED_LEN,
    ensures
        host@.len() == 0 ==> r == Err::<PingPlan, PingError>(PingError::InvalidHost),
        host@.len() > 0 && !known_protocol_numbers().contains(protocol) ==> r == Err::<
            PingPlan,
            PingError,
        >(PingError::UnknownProtocol),
        host@.len() > 0 && known_protocol_numbers().contains(protocol) && timeout == 0 ==> r
            == Err::<PingPlan, PingError>(PingError::InvalidTimeout),
        host@.len() > 0 && known_protocol_numbers().contains(protocol) && timeout > 0 ==> (r matches Ok(
            plan,
        ) && plan.lookup_host@ == host@ && plan.port == effective_port(port) && plan.handshake@
            == handshake_packet(
            encode_utf8(announced_host(host@, override_host@)),
            effective_port(port),
            protocol,
        ) && plan.status_request@ == status_request_packet() && plan.timeout_secs == timeout),
{
    if host.as_str().is_empty() {
        return Err(PingError::InvalidHost);
    }
    if !is_known_protocol_number(&protocol) {
        return Err(PingError::UnknownProtocol);
    }
    if timeout == 0 {
        return Err(PingError::InvalidTimeout);
    }
    let port_to_use: u16 = if port == 0 {
        DEFAULT_PORT
    } else {
        port
    };
    let handshake = if override_host.as_str().is_empty() {
        compose_handshake_packet(host, &port_to_use, &protocol)
    } else {
        compose_handshake_packet(override_host, &port_to_use, &protocol)
    };
    Ok(
        PingPlan {
            lookup_host: host.clone(),
            port: port_to_use,
            handshake,
            status_request: compose_status_request_packet(),
            timeout_secs: timeout,
        },
    )
}

/// The candidate to try after `tried` of them failed to connect, or the
/// error that ends the ping when none is left.
pub fn next_candidate(candidates: &Vec<Candidate>, tried: usize) -> (r: Result<
    Candidate,
    PingError,
>)
    ensures
        tried < candidates@.len() ==> r == Ok::<Candidate, PingError>(candidates@[tried as int]),
        tried >= candidates@.len() ==> r == Err::<Candidate, PingError>(
            PingError::AllAddressesTried,
        ),
{
    if tried < candidates.len() {
        Ok(candidates[tried])
    } else {
        Err(PingError::AllAddressesTried)
    }
}

/// A length field of the response is valid when, read as a signed 32-bit
/// number, it is strictly positive.
pub open spec fn is_positive(v: u32) -> bool {
    0 < v && v < 0x8000_0000
}

/// How far the bytes received so far go toward a status response.
pub enum FrameStatus {
    /// The response is not complete; at least this many more bytes are due.
    Need(nat),
    /// The response is complete and carries this payload.
    Complete(Seq<u8>),
    /// The response is broken.
    Fail(PingError),
}

/// The status of a response that begins with `s`: a positive frame-length
/// varint, packet id 0, a positive payload-length varint, then the payload.
pub open spec fn frame_status(s: Seq<u8>) -> FrameStatus {
    match varint_decode_at(s, 0) {
        Err(VarintError::Incomplete) => FrameStatus::Need(1),
        Err(VarintError::TooLong) => FrameStatus::Fail(PingError::MalformedVarint),
        Ok((frame_len, n1)) => if !is_positive(frame_len) {
            FrameStatus::Fail(PingError::NonPositiveVarint)
        } else if s.len() <= n1 {
            FrameStatus::Need(1)
        } else if s[n1 as int] != 0 {
            FrameStatus::Fail(PingError::UnknownPacketId(s[n1 as int]))
        } else {
            match varint_decode_at(s, n1 + 1int) {
                Err(VarintError::Incomplete) => FrameStatus::Need(1),
                Err(VarintError::TooLong) => FrameStatus::Fail(PingError::MalformedVarint),
                Ok((payload_len, n2)) => if !is_positive(payload_len) {
                    FrameStatus::Fail(PingError::NonPositiveVarint)
                } else {
                    let p = n1 + 1 + n2;
                    if s.len() < p + payload_len {
                        FrameStatus::Need((p + payload_len - s.len()) as nat)
                    } else {
                        FrameStatus::Complete(s.subrange(p as int, p + payload_len))
                    }
                },
            }
        },
    }
}

/// How many bytes to read when `n` more are due.
pub open spec fn chunk_for(n: nat) -> nat {
    if n < READ_CHUNK {
        n
    } else {
        READ_CHUNK as nat
    }
}

/// What the reader asks of its caller next.
#[derive(Debug)]
pub enum ReadAction {
    /// Read at most this many bytes and hand them to `step`.
    NeedBytes(usize),
    /// The response is complete; this is its payload.
    Finished(Vec<u8>),
    /// The response is broken, or the connection ended early.
    Failed(PingError),
}

/// `a` is the action that status `st` calls for.
pub open spec fn action_for(a: ReadAction, st: FrameStatus) -> bool {
    match (a, st) {
        (ReadAction::NeedBytes(n), FrameStatus::Need(m)) => n == chunk_for(m),
        (ReadAction::Finished(p), FrameStatus::Complete(q)) => p@ == q,
        (ReadAction::Failed(e), FrameStatus::Fail(f)) => e == f,
        _ => false,
    }
}

fn classify(received: &Vec<u8>) -> (a: ReadAction)
    ensures
        action_for(a, frame_status(received@)),
{
    let s: &[u8] = received.as_slice();
    proof {
        lemma_scan_bounds(received@, 0, 0);
    }
    match decode_varint(s, 0) {
        Err(VarintError::Incomplete) => ReadAction::NeedBytes(1),
        Err(VarintError::TooLong) => ReadAction::Failed(PingError::MalformedVarint),
        Ok((frame_len, n1)) => {
            if !(0 < frame_len && frame_len < 0x8000_0000) {
                return ReadAction::Failed(PingError::NonPositiveVarint);
            }
            if s.len() <= n1 {
                return ReadAction::NeedBytes(1);
            }
            if s[n1] != 0 {
                return ReadAction::Failed(PingError::UnknownPacketId(s[n1]));
            }
            proof {
                lemma_scan_bounds(received@, n1 + 1, 0);
            }
            match decode_varint(s, n1 + 1) {
                Err(VarintError::Incomplete) => ReadAction::NeedBytes(1),
                Err(VarintError::TooLong) => ReadAction::Failed(PingError::MalformedVarint),
                Ok((payload_len, n2)) => {
                    if !(0 < payload_len && payload_len < 0x8000_0000) {
                        return ReadAction::Failed(PingError::NonPositiveVarint);
                    }
                    let p: usize = n1 + 1 + n2;
                    let len: usize = payload_len as usize;
                    let have: usize = s.len() - p;
                    if have < len {
                        let due: usize = len - have;
                        return ReadAction::NeedBytes(
                            if due < READ_CHUNK {
                                due
                            } else {
                                READ_CHUNK
                            },
                        );
                    }
                    let mut payload: Vec<u8> = Vec::new();
                    let mut i: usize = 0;
                    while i < len
                        invariant
                            i <= len,
                            p + len <= s@.len(),
                            s@.len() == s.len(),
                            payload@ == s@.subrange(p as int, p + i),
                        decreases len - i,
                    {
                        payload.push(s[p + i]);
                        assert(s@.subrange(p as int, p + i + 1) =~= s@.subrange(p as int, p + i).push(
                            s@[p + i],
                        ));
                        i = i + 1;
                    }
                    ReadAction::Finished(payload)
                },
            }
        },
    }
}

/// Reads a status response from a byte stream, in whatever pieces the
/// stream hands out, never asking for a byte past the response's end.
pub struct ResponseReader {
    received: Vec<u8>,
    wanted: usize,
}

impl View for ResponseReader {
    type V = Seq<u8>;

    /// The bytes received so far.
    closed spec fn view(&self) -> Seq<u8> {
        self.received@
    }
}

impl ResponseReader {
    /// How many bytes the next read may hand over.
    pub closed spec fn spec_wanted(&self) -> nat {
        self.wanted as nat
    }

    /// The response is still incomplete, and the reader asks for no more
    /// bytes than are due.
    pub open spec fn wf(&self) -> bool {
        match frame_status(self@) {
            FrameStatus::Need(m) => self.spec_wanted() == chunk_for(m),
            _ => false,
        }
    }

    /// A reader that has received nothing.
    pub fn new() -> (r: ResponseReader)
        ensures
            r@ == Seq::<u8>::empty(),
            r.wf(),
    {
        ResponseReader { received: Vec::new(), wanted: 1 }
    }

    /// How many bytes the next read may hand over: at least one, at most
    /// what is due and at most `READ_CHUNK`.
    pub fn wanted(&self) -> (n: usize)
        requires
            self.wf(),
        ensures
            n == self.spec_wanted(),
            1 <= n <= READ_CHUNK,
    {
        self.wanted
    }

    /// Takes the bytes of one read. An empty read means that the stream
    /// ended, which fails the response; otherwise the action is the one
    /// that all bytes received so far call for.
    pub fn step(&mut self, input: &[u8]) -> (a: ReadAction)
        requires
            old(self).wf(),
            input@.len() <= old(self).spec_wanted(),
        ensures
            input@.len() == 0 ==> final(self)@ == old(self)@ && a == ReadAction::Failed(
                PingError::ConnectionClosed,
            ),
            input@.len() > 0 ==> final(self)@ == old(self)@ + input@ && action_for(
                a,
                frame_status(final(self)@),
            ),
            a is NeedBytes ==> final(self).wf(),
    {
        if input.len() == 0 {
            return ReadAction::Failed(PingError::ConnectionClosed);
        }
        self.received.extend_from_slice(input);
        assert(self.received@ =~= old(self)@ + input@);
        let a = classify(&self.received);
        if let ReadAction::NeedBytes(n) = a {
            self.wanted = n;
        }
        a
    }
}

} // verus!
