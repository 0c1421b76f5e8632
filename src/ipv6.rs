//! IPv6 packets (RFC 8200): the fixed header only, no extension headers.
use vstd::prelude::*;
use crate::ip::{Payload, Protocol};
use crate::render::{paired_hex, paired_hex_text};
use crate::parse::{
    Error, ErrorKind, Label, be16, be_u16, be_u8, bits_value, consumed_len, ends_in, enter_bits,
    exit_bits, has, is_rest, rest_of, take_bits,
};
use crate::ux::{U20, U4};

verus! {

/// A 16-byte IPv6 address.
#[derive(Debug, Clone, Copy, PartialEq, Eq, Default)]
pub struct Addr(pub [u8; 16]);

impl Addr {
    /// The address as eight groups of two bytes in uppercase hexadecimal,
    /// separated by colons and written out in full.
    pub fn to_string(&self) -> (r: String)
        ensures
            r@ == paired_hex(self.0@, 16),
    {
        paired_hex_text(vstd::array::array_as_slice(&self.0))
    }

    /// Sixteen bytes at `pos`.
    pub fn parse(b: &[u8], pos: usize) -> (r: Result<(usize, Addr), Error>)
        requires
            pos <= b@.len(),
        ensures
            r is Ok <==> has(b@, pos as int, 16),
            r matches Ok((q, a)) ==> q == pos + 16 && a.0@ == b@.subrange(pos as int, q as int),
            r matches Err(e) ==> ends_in(e, pos as int, Label::Ipv6Address),
    {
        if b.len() - pos < 16 {
            return Err(Error::new(pos, ErrorKind::NeedMore).context(pos, Label::Ipv6Address));
        }
        let a = Addr(
            [
                b[pos],
                b[pos + 1],
                b[pos + 2],
                b[pos + 3],
                b[pos + 4],
                b[pos + 5],
                b[pos + 6],
                b[pos + 7],
                b[pos + 8],
                b[pos + 9],
                b[pos + 10],
                b[pos + 11],
                b[pos + 12],
                b[pos + 13],
                b[pos + 14],
                b[pos + 15],
            ],
        );
        assert(a.0@ =~= b@.subrange(pos as int, pos + 16));
        Ok((pos + 16, a))
    }
}

/// An IPv6 packet: the fixed 40-byte header and the payload its next-header
/// field names.
#[derive(Debug)]
pub struct Packet {
    pub version: U4,
    pub traffic_class: u8,
    pub flow_label: U20,
    pub payload_len: u16,
    pub protocol: Option<Protocol>,
    pub ttl: u8,
    pub src: Addr,
    pub dst: Addr,
    pub payload: Payload,
}

impl Packet {
    /// The protocol the next-header field names.
    pub open spec fn spec_protocol(b: Seq<u8>, pos: int) -> Option<Protocol> {
        Protocol::spec_from_u8(b[pos + 6])
    }

    /// Decoding at `pos` succeeds exactly when the header is there and the
    /// payload of the protocol it names decodes.
    pub open spec fn ok(b: Seq<u8>, pos: int) -> bool {
        &&& has(b, pos, 40)
        &&& Payload::ok(b, pos + 40, Self::spec_protocol(b, pos))
    }

    /// `p` is the packet at `pos`, which runs to `end`.
    pub open spec fn decoded(b: Seq<u8>, pos: int, end: int, p: Packet) -> bool {
        let k = pos * 8;
        &&& p.version@ == bits_value(b, k, 4)
        &&& p.traffic_class == bits_value(b, k + 4, 8)
        &&& p.flow_label@ == bits_value(b, k + 12, 20)
        &&& p.payload_len == be16(b, pos + 4)
        &&& p.protocol == Self::spec_protocol(b, pos)
        &&& p.ttl == b[pos + 7]
        &&& p.src.0@ == b.subrange(pos + 8, pos + 24)
        &&& p.dst.0@ == b.subrange(pos + 24, pos + 40)
        &&& Payload::decoded(b, pos + 40, end, p.protocol, p.payload)
    }

    fn first_word(b: &[u8], pos: usize) -> (r: Result<(usize, (U4, u8, U20)), Error>)
        requires
            pos <= b@.len(),
        ensures
            r is Ok <==> has(b@, pos as int, 4),
            r matches Ok((q, (v, t, f))) ==> q == pos + 4 && v@ == bits_value(b@, pos * 8, 4)
                && t == bits_value(b@, pos * 8 + 4, 8) && f@ == bits_value(b@, pos * 8 + 12, 20),
    {
        if b.len() - pos < 4 {
            return Err(Error::new(pos, ErrorKind::NeedMore));
        }
        let c = enter_bits(pos);
        let (c, version) = U4::parse(b, c)?;
        proof {
            vstd::arithmetic::power2::lemma2_to64();
        }
        let (c, t) = take_bits(b, c, 8)?;
        let (c, flow_label) = U20::parse(b, c)?;
        let q = exit_bits(c)?;
        Ok((q, (version, t as u8, flow_label)))
    }

    fn fields(b: &[u8], pos: usize) -> (r: Result<(usize, Packet), Error>)
        requires
            pos <= b@.len(),
        ensures
            r is Ok <==> Self::ok(b@, pos as int),
            r matches Ok((q, p)) ==> Self::decoded(b@, pos as int, q as int, p),
    {
        if b.len() - pos < 40 {
            return Err(Error::new(pos, ErrorKind::NeedMore));
        }
        let (i, (version, traffic_class, flow_label)) = Self::first_word(b, pos)?;
        let (i, payload_len) = be_u16(b, i)?;
        let (i, protocol) = Protocol::parse(b, i)?;
        let (i, ttl) = be_u8(b, i)?;
        let (i, src) = Addr::parse(b, i)?;
        let (i, dst) = Addr::parse(b, i)?;
        let (q, payload) = Payload::parse(b, i, protocol)?;
        let p = Packet {
            version,
            traffic_class,
            flow_label,
            payload_len,
            protocol,
            ttl,
            src,
            dst,
            payload,
        };
        Ok((q, p))
    }

    /// The packet at `pos`, with the payload its protocol names; a payload
    /// that fails to decode fails the packet.
    pub fn parse_at(b: &[u8], pos: usize) -> (r: Result<(usize, Packet), Error>)
        requires
            pos <= b@.len(),
        ensures
            r is Ok <==> Self::ok(b@, pos as int),
            r matches Ok((q, p)) ==> Self::decoded(b@, pos as int, q as int, p),
            r matches Err(e) ==> ends_in(e, pos as int, Label::Ipv6Frame),
    {
        match Self::fields(b, pos) {
            Ok(x) => Ok(x),
            Err(e) => Err(e.context(pos, Label::Ipv6Frame)),
        }
    }

    /// The packet at the start of `i`, and what is left of `i`.
    pub fn parse(i: &[u8]) -> (r: Result<(&[u8], Packet), Error>)
        ensures
            r is Ok <==> Self::ok(i@, 0),
            r matches Ok((rest, p)) ==> is_rest(i@, rest@) && Self::decoded(
                i@,
                0,
                consumed_len(i@, rest@),
                p,
            ),
            r matches Err(e) ==> ends_in(e, 0, Label::Ipv6Frame),
    {
        let (q, p) = Self::parse_at(i, 0)?;
        Ok((rest_of(i, q), p))
    }
}

/// In a decoded IPv6 packet the payload is the one the next-header field
/// names, as for IPv4.
pub proof fn lemma_payload_follows_protocol(b: Seq<u8>, pos: int, end: int, p: Packet)
    requires
        Packet::decoded(b, pos, end, p),
    ensures
        p.protocol == Some(Protocol::TCP) ==> p.payload is TCP,
        p.protocol == Some(Protocol::UDP) ==> p.payload is UDP,
        p.protocol == Some(Protocol::ICMP) ==> p.payload is ICMP,
        p.protocol == Some(Protocol::Unknown) ==> p.payload is Unknown,
{
}

} // verus!
