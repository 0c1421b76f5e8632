//! What the IP layers share: the protocol number and the layer-4 payload
//! that it selects.
use vstd::prelude::*;
use crate::icmp;
use crate::parse::{Error, ErrorKind, be_u8, has, is_failure};
use crate::tcp;
use crate::udp;

verus! {

/// A layer-4 payload, chosen by the protocol number.
#[derive(Debug)]
pub enum Payload {
    UDP(udp::Datagram),
    TCP(tcp::Packet),
    ICMP(icmp::Packet),
    Unknown,
}

/// The protocol number of an IP header.
#[derive(Debug, Clone, Copy, PartialEq, Eq, Structural)]
pub enum Protocol {
    ICMP,
    TCP,
    UDP,
    Unknown,
}

impl Protocol {
    /// The protocol a number names; every other number is `Unknown`.
    pub open spec fn spec_from_u8(v: u8) -> Option<Protocol> {
        if v == 1 {
            Some(Protocol::ICMP)
        } else if v == 6 {
            Some(Protocol::TCP)
        } else if v == 17 {
            Some(Protocol::UDP)
        } else {
            Some(Protocol::Unknown)
        }
    }

    pub fn from_u8(v: u8) -> (r: Option<Protocol>)
        ensures
            r == Self::spec_from_u8(v),
    {
        if v == 1 {
            Some(Protocol::ICMP)
        } else if v == 6 {
            Some(Protocol::TCP)
        } else if v == 17 {
            Some(Protocol::UDP)
        } else {
            Some(Protocol::Unknown)
        }
    }

    /// The protocol byte at `pos`.
    pub fn parse(b: &[u8], pos: usize) -> (r: Result<(usize, Option<Protocol>), Error>)
        requires
            pos <= b@.len(),
        ensures
            r is Ok <==> has(b@, pos as int, 1),
            r matches Ok((q, p)) ==> q == pos + 1 && p == Self::spec_from_u8(b@[pos as int]),
            r matches Err(e) ==> is_failure(e, pos as int, ErrorKind::NeedMore),
    {
        let (q, v) = be_u8(b, pos)?;
        Ok((q, Self::from_u8(v)))
    }
}

impl Payload {
    /// Decoding the payload of protocol `p` at `pos` succeeds: a known
    /// protocol needs its own decoder to succeed, any other needs nothing.
    pub open spec fn ok(b: Seq<u8>, pos: int, p: Option<Protocol>) -> bool {
        match p {
            Some(Protocol::TCP) => tcp::Packet::ok(b, pos),
            Some(Protocol::UDP) => udp::Datagram::ok(b, pos),
            Some(Protocol::ICMP) => icmp::Packet::ok(b, pos),
            _ => true,
        }
    }

    /// `v` is the payload of protocol `p` at `pos`, running to `end`: the arm
    /// is the one the protocol names, and an unknown protocol consumes nothing.
    pub open spec fn decoded(b: Seq<u8>, pos: int, end: int, p: Option<Protocol>, v: Payload) -> bool {
        match p {
            Some(Protocol::TCP) => v matches Payload::TCP(t) && tcp::Packet::decoded(b, pos, end, t),
            Some(Protocol::UDP) => v matches Payload::UDP(d) && udp::Datagram::decoded(b, pos, end, d),
            Some(Protocol::ICMP) => v matches Payload::ICMP(c) && icmp::Packet::decoded(b, pos, end, c),
            _ => v is Unknown && end == pos,
        }
    }

    /// The payload of protocol `p` at `pos`.
    pub fn parse(b: &[u8], pos: usize, p: Option<Protocol>) -> (r: Result<(usize, Payload), Error>)
        requires
            pos <= b@.len(),
        ensures
            r is Ok <==> Self::ok(b@, pos as int, p),
            r matches Ok((q, v)) ==> Self::decoded(b@, pos as int, q as int, p, v),
    {
        match p {
            Some(Protocol::TCP) => {
                let (q, t) = tcp::Packet::parse_at(b, pos)?;
                Ok((q, Payload::TCP(t)))
            },
            Some(Protocol::UDP) => {
                let (q, d) = udp::Datagram::parse_at(b, pos)?;
                Ok((q, Payload::UDP(d)))
            },
            Some(Protocol::ICMP) => {
                let (q, c) = icmp::Packet::parse_at(b, pos)?;
                Ok((q, Payload::ICMP(c)))
            },
            _ => Ok((pos, Payload::Unknown)),
        }
    }
}

} // verus!
