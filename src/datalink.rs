//! What the layer-2 decoders share: the MAC address, the EtherType tag and
//! the payload that a layer-2 frame carries.
use vstd::prelude::*;
use crate::arp;
use crate::ipv4;
use crate::ipv6;
use crate::render::{hex_joined, hex_text};
use crate::parse::{Error, ErrorKind, Label, be16, be_u16, ends_in, has, is_failure};

verus! {

/// A 6-byte MAC address.
#[derive(Debug, Clone, Copy, PartialEq, Eq)]
pub struct Addr(pub [u8; 6]);

impl Addr {
    /// The address made of the first six bytes of `slice`.
    pub fn new(slice: &[u8]) -> (r: Addr)
        requires
            slice@.len() >= 6,
        ensures
            r.0@ == slice@.subrange(0, 6),
    {
        let r = Addr([slice[0], slice[1], slice[2], slice[3], slice[4], slice[5]]);
        assert(r.0@ =~= slice@.subrange(0, 6));
        r
    }

    /// The address as six pairs of uppercase hexadecimal digits separated by
    /// colons, `AA:BB:CC:DD:EE:FF`.
    pub fn to_string(&self) -> (r: String)
        ensures
            r@ == hex_joined(self.0@, 6, ':'),
    {
        proof {
            reveal_strlit(":");
        }
        hex_text(vstd::array::array_as_slice(&self.0), ":")
    }

    /// Six bytes at `pos`.
    pub fn parse(b: &[u8], pos: usize) -> (r: Result<(usize, Addr), Error>)
        requires
            pos <= b@.len(),
        ensures
            r is Ok <==> has(b@, pos as int, 6),
            r matches Ok((q, a)) ==> q == pos + 6 && a.0@ == b@.subrange(pos as int, q as int),
            r matches Err(e) ==> ends_in(e, pos as int, Label::MacAddress),
    {
        if b.len() - pos < 6 {
            return Err(Error::new(pos, ErrorKind::NeedMore).context(pos, Label::MacAddress));
        }
        let a = Addr([b[pos], b[pos + 1], b[pos + 2], b[pos + 3], b[pos + 4], b[pos + 5]]);
        assert(a.0@ =~= b@.subrange(pos as int, pos + 6));
        Ok((pos + 6, a))
    }
}

/// The protocol carried by an Ethernet frame, or named by ARP.
#[derive(Debug, Clone, Copy, PartialEq, Eq, Structural)]
pub enum EtherType {
    IPv4,
    IPv6,
    ARP,
}

impl EtherType {
    /// The EtherType a 16-bit value names, if any.
    pub open spec fn spec_from_u16(v: int) -> Option<EtherType> {
        if v == 0x0800 {
            Some(EtherType::IPv4)
        } else if v == 0x86DD {
            Some(EtherType::IPv6)
        } else if v == 0x0806 {
            Some(EtherType::ARP)
        } else {
            None
        }
    }

    pub fn from_u16(v: u16) -> (r: Option<EtherType>)
        ensures
            r == Self::spec_from_u16(v as int),
    {
        if v == 0x0800 {
            Some(EtherType::IPv4)
        } else if v == 0x86DD {
            Some(EtherType::IPv6)
        } else if v == 0x0806 {
            Some(EtherType::ARP)
        } else {
            None
        }
    }

    /// A big-endian EtherType at `pos`; an unknown value gives `None`.
    pub fn parse(b: &[u8], pos: usize) -> (r: Result<(usize, Option<EtherType>), Error>)
        requires
            pos <= b@.len(),
        ensures
            r is Ok <==> has(b@, pos as int, 2),
            r matches Ok((q, t)) ==> q == pos + 2 && t == Self::spec_from_u16(be16(b@, pos as int)),
            r matches Err(e) ==> ends_in(e, pos as int, Label::EtherType),
    {
        match be_u16(b, pos) {
            Ok((q, v)) => Ok((q, Self::from_u16(v))),
            Err(e) => Err(e.context(pos, Label::EtherType)),
        }
    }
}

/// What a layer-2 frame carries: the arm is the one the EtherType names.
#[derive(Debug)]
pub enum Payload {
    IPv4(ipv4::Packet),
    IPv6(ipv6::Packet),
    ARP(arp::Packet),
    Protected,
    Unknown,
}

} // verus!
