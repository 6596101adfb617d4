use vstd::prelude::*;
use vstd::string::StringExecFns;

use crate::error::PingError;
use crate::protocol::DEFAULT_PORT;

verus! {

/// An IPv4 address as its four octets.
pub type Ipv4 = [u8; 4];

/// An address to try, with the port to connect to.
pub type Candidate = (Ipv4, u16);

/// What a host string is, read as a literal address.
#[derive(Debug, Clone, Copy, PartialEq, Eq)]
pub enum HostLiteral {
    /// A literal IPv4 address.
    V4(Ipv4),
    /// A literal IPv6 address.
    V6,
    /// Not a literal address: a name to look up.
    Name,
}

/// What resolution does next.
#[derive(Debug)]
pub enum ResolveStep {
    /// Resolution is over, with these candidates or this error.
    Done(Result<Vec<Candidate>, PingError>),
    /// Look up the service record of the host, then call `resolve_after_service`.
    LookupService,
    /// Look up the host's addresses, then call `resolve_after_address`.
    LookupAddress,
}

/// `step` ends resolution with exactly the candidates `c`.
pub open spec fn resolved_to(step: ResolveStep, c: Seq<Candidate>) -> bool {
    match step {
        ResolveStep::Done(Ok(v)) => v@ == c,
        _ => false,
    }
}

/// Each address of `addrs`, in order, paired with `port`.
pub open spec fn paired(addrs: Seq<Ipv4>, port: u16) -> Seq<Candidate> {
    addrs.map_values(|a: Ipv4| (a, port))
}

/// The first rule of resolution: a literal address decides at once; a name
/// goes to the service record when the default port was asked for, and to
/// the address lookup otherwise.
pub fn resolve_literal(literal: &HostLiteral, port: u16) -> (r: ResolveStep)
    ensures
        match *literal {
            HostLiteral::V4(a) => resolved_to(r, seq![(a, port)]),
            HostLiteral::V6 => r == ResolveStep::Done(Err(PingError::UnsupportedAddressFamily)),
            HostLiteral::Name => if port == DEFAULT_PORT {
                r == ResolveStep::LookupService
            } else {
                r == ResolveStep::LookupAddress
            },
        },
{
    match literal {
        HostLiteral::V4(a) => {
            let mut v: Vec<Candidate> = Vec::new();
            v.push((*a, port));
            assert(v@ =~= seq![(*a, port)]);
            ResolveStep::Done(Ok(v))
        },
        HostLiteral::V6 => ResolveStep::Done(Err(PingError::UnsupportedAddressFamily)),
        HostLiteral::Name => {
            if port == DEFAULT_PORT {
                ResolveStep::LookupService
            } else {
                ResolveStep::LookupAddress
            }
        },
    }
}

/// The name under which the service record of `host` is published.
pub fn service_query_name(host: &str) -> (r: String)
    ensures
        r@ == "_minecraft._tcp."@ + host@,
{
    let mut name = <String as StringExecFns>::from_str("_minecraft._tcp.");
    name.append(host);
    name
}

/// Pairs each address with `port`, keeping their order.
pub fn pair_with_port(addrs: &Vec<Ipv4>, port: u16) -> (r: Vec<Candidate>)
    ensures
        r@ == paired(addrs@, port),
{
    let mut out: Vec<Candidate> = Vec::new();
    let mut i: usize = 0;
    while i < addrs.len()
        invariant
            i <= addrs@.len(),
            out@ == paired(addrs@.subrange(0, i as int), port),
        decreases addrs@.len() - i,
    {
        out.push((addrs[i], port));
        assert(paired(addrs@.subrange(0, i + 1), port) =~= paired(addrs@.subrange(0, i as int), port).push(
            (addrs@[i as int], port),
        ));
        i = i + 1;
    }
    assert(addrs@.subrange(0, addrs@.len() as int) =~= addrs@);
    out
}

/// The second rule: the candidates that the service records gave (each
/// target's addresses with that record's port) end resolution unless there
/// are none, in which case the host's own addresses are looked up.
pub fn resolve_after_service(found: Vec<Candidate>) -> (r: ResolveStep)
    ensures
        found@.len() > 0 ==> resolved_to(r, found@),
        found@.len() == 0 ==> r == ResolveStep::LookupAddress,
{
    if found.len() > 0 {
        ResolveStep::Done(Ok(found))
    } else {
        ResolveStep::LookupAddress
    }
}

/// The last rule: the host's addresses, each with the requested port, or
/// an error naming the host when there are none.
pub fn resolve_after_address(host: &str, addrs: &Vec<Ipv4>, port: u16) -> (r: Result<
    Vec<Candidate>,
    PingError,
>)
    ensures
        addrs@.len() > 0 ==> (r matches Ok(v) && v@ == paired(addrs@, port)),
        addrs@.len() == 0 ==> (r matches Err(PingError::CannotResolve(h)) && h@ == host@),
{
    if addrs.len() == 0 {
        Err(PingError::CannotResolve(<String as StringExecFns>::from_str(host)))
    } else {
        Ok(pair_with_port(addrs, port))
    }
}

} // verus!
