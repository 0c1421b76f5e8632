//! Ethernet II frames (IEEE 802.3, no VLAN tag).
use vstd::prelude::*;
use crate::arp;
use crate::datalink::{Addr, EtherType, Payload};
use crate::ipv4;
use crate::ipv6;
use crate::parse::{
    Error, ErrorKind, Label, be16, consumed_len, ends_in, has, is_failure, is_rest, rest_of,
};

verus! {

/// An Ethernet frame and the layer-3 packet its EtherType names.
#[derive(Debug)]
pub struct Frame {
    pub dst: Addr,
    pub src: Addr,
    pub ether_type: Option<EtherType>,
    pub payload: Option<Payload>,
}

impl Frame {
    /// The EtherType the header names.
    pub open spec fn spec_ether_type(b: Seq<u8>, pos: int) -> Option<EtherType> {
        EtherType::spec_from_u16(be16(b, pos + 12))
    }

    /// Decoding at `pos` succeeds exactly when the 14-byte header is there
    /// and the packet its EtherType names decodes.
    pub open spec fn ok(b: Seq<u8>, pos: int) -> bool {
        &&& has(b, pos, 14)
        &&& match Self::spec_ether_type(b, pos) {
            Some(EtherType::IPv4) => ipv4::Packet::ok(b, pos + 14),
            Some(EtherType::IPv6) => ipv6::Packet::ok(b, pos + 14),
            Some(EtherType::ARP) => arp::Packet::ok(b, pos + 14),
            None => true,
        }
    }

    /// `f` is the frame at `pos`, which ends at `end`; an unknown EtherType
    /// leaves everything after the header unconsumed.
    pub open spec fn decoded(b: Seq<u8>, pos: int, end: int, f: Frame) -> bool {
        &&& f.dst.0@ == b.subrange(pos, pos + 6)
        &&& f.src.0@ == b.subrange(pos + 6, pos + 12)
        &&& f.ether_type == Self::spec_ether_type(b, pos)
        &&& match f.ether_type {
            Some(EtherType::IPv4) => f.payload matches Some(Payload::IPv4(p)) && ipv4::Packet::decoded(
                b,
                pos + 14,
                end,
                p,
            ),
            Some(EtherType::IPv6) => f.payload matches Some(Payload::IPv6(p)) && ipv6::Packet::decoded(
                b,
                pos + 14,
                end,
                p,
            ),
            Some(EtherType::ARP) => f.payload matches Some(Payload::ARP(p)) && arp::Packet::decoded(
                b,
                pos + 14,
                end,
                p,
            ),
            None => f.payload matches Some(Payload::Unknown) && end == pos + 14,
        }
    }

    fn fields(b: &[u8], pos: usize) -> (r: Result<(usize, Frame), Error>)
        requires
            pos <= b@.len(),
        ensures
            r is Ok <==> Self::ok(b@, pos as int),
            r matches Ok((q, f)) ==> Self::decoded(b@, pos as int, q as int, f),
            b@.len() < pos + 14 ==> (r matches Err(e) && is_failure(
                e,
                pos as int,
                ErrorKind::NeedMore,
            )),
    {
        if b.len() - pos < 14 {
            return Err(Error::new(pos, ErrorKind::NeedMore));
        }
        let (i, dst) = Addr::parse(b, pos)?;
        let (i, src) = Addr::parse(b, i)?;
        let (i, ether_type) = EtherType::parse(b, i)?;
        let (i, payload) = match ether_type {
            Some(EtherType::IPv4) => {
                let (i, p) = ipv4::Packet::parse_at(b, i)?;
                (i, Payload::IPv4(p))
            },
            Some(EtherType::IPv6) => {
                let (i, p) = ipv6::Packet::parse_at(b, i)?;
                (i, Payload::IPv6(p))
            },
            Some(EtherType::ARP) => {
                let (i, p) = arp::Packet::parse_at(b, i)?;
                (i, Payload::ARP(p))
            },
            None => (i, Payload::Unknown),
        };
        Ok((i, Frame { dst, src, ether_type, payload: Some(payload) }))
    }

    /// The layer-3 payload.
    pub fn get_payload(&self) -> (r: &Option<Payload>)
        ensures
            *r == self.payload,
    {
        &self.payload
    }

    /// The frame at `pos`.
    pub fn parse_at(b: &[u8], pos: usize) -> (r: Result<(usize, Frame), Error>)
        requires
            pos <= b@.len(),
        ensures
            r is Ok <==> Self::ok(b@, pos as int),
            r matches Ok((q, f)) ==> Self::decoded(b@, pos as int, q as int, f),
            r matches Err(e) ==> ends_in(e, pos as int, Label::EthernetFrame),
            b@.len() < pos + 14 ==> (r matches Err(e) && e.errors@ == seq![
                (pos, ErrorKind::NeedMore),
                (pos, ErrorKind::Context(Label::EthernetFrame)),
            ]),
    {
        match Self::fields(b, pos) {
            Ok(x) => Ok(x),
            Err(e) => {
                let e = e.context(pos, Label::EthernetFrame);
                assert(b@.len() < pos + 14 ==> e.errors@ =~= seq![
                    (pos, ErrorKind::NeedMore),
                    (pos, ErrorKind::Context(Label::EthernetFrame)),
                ]);
                Err(e)
            },
        }
    }

    /// The frame at the start of `i`, and what is left of `i`.
    pub fn parse(i: &[u8]) -> (r: Result<(&[u8], Frame), Error>)
        ensures
            r is Ok <==> Self::ok(i@, 0),
            r matches Ok((rest, f)) ==> is_rest(i@, rest@) && Self::decoded(
                i@,
                0,
                consumed_len(i@, rest@),
                f,
            ),
            r matches Err(e) ==> ends_in(e, 0, Label::EthernetFrame),
            i@.len() < 14 ==> (r matches Err(e) && e.errors@ == seq![
                (0usize, ErrorKind::NeedMore),
                (0usize, ErrorKind::Context(Label::EthernetFrame)),
            ]),
    {
        let (q, f) = Self::parse_at(i, 0)?;
        Ok((rest_of(i, q), f))
    }
}

/// In a decoded Ethernet frame the payload is the one the EtherType names:
/// IPv4 carries an IPv4 packet, IPv6 an IPv6 packet, ARP an ARP packet, and
/// an unknown EtherType carries nothing decoded.
pub proof fn lemma_payload_follows_ether_type(b: Seq<u8>, pos: int, end: int, f: Frame)
    requires
        Frame::decoded(b, pos, end, f),
    ensures
        f.ether_type == Some(EtherType::IPv4) ==> f.payload matches Some(Payload::IPv4(_)),
        f.ether_type == Some(EtherType::IPv6) ==> f.payload matches Some(Payload::IPv6(_)),
        f.ether_type == Some(EtherType::ARP) ==> f.payload matches Some(Payload::ARP(_)),
        f.ether_type is None ==> f.payload matches Some(Payload::Unknown),
{
}

} // verus!
