//! IPv4 packets (RFC 791).
use vstd::prelude::*;
use crate::ip::{Payload, Protocol};
use crate::render::{dotted, dotted_text};
use crate::parse::{
    Error, ErrorKind, Label, be16, be_u16, be_u8, bits_value, consumed_len, ends_in, enter_bits,
    exit_bits, has, is_rest, rest_of,
};
use crate::ux::{U13, U2, U3, U4, U6};

verus! {

/// A 4-byte IPv4 address.
#[derive(Debug, Clone, Copy, PartialEq, Eq)]
pub struct Addr(pub [u8; 4]);

impl Addr {
    /// The address in dotted decimal, `192.168.1.67`.
    pub fn to_string(&self) -> (r: String)
        ensures
            r@ == dotted(self.0@, 4),
    {
        dotted_text(vstd::array::array_as_slice(&self.0))
    }

    /// Four bytes at `pos`.
    pub fn parse(b: &[u8], pos: usize) -> (r: Result<(usize, Addr), Error>)
        requires
            pos <= b@.len(),
        ensures
            r is Ok <==> has(b@, pos as int, 4),
            r matches Ok((q, a)) ==> q == pos + 4 && a.0@ == b@.subrange(pos as int, q as int),
            r matches Err(e) ==> ends_in(e, pos as int, Label::Ipv4Address),
    {
        if b.len() - pos < 4 {
            return Err(Error::new(pos, ErrorKind::NeedMore).context(pos, Label::Ipv4Address));
        }
        let a = Addr([b[pos], b[pos + 1], b[pos + 2], b[pos + 3]]);
        assert(a.0@ =~= b@.subrange(pos as int, pos + 4));
        Ok((pos + 4, a))
    }
}

/// Two nibbles of one byte at `pos`, high first.
pub fn parse_nibbles(b: &[u8], pos: usize) -> (r: Result<(usize, (U4, U4)), Error>)
    requires
        pos <= b@.len(),
    ensures
        r is Ok <==> has(b@, pos as int, 1),
        r matches Ok((q, (x, y))) ==> q == pos + 1 && x@ == bits_value(b@, pos * 8, 4) && y@
            == bits_value(b@, pos * 8 + 4, 4),
{
    if pos >= b.len() {
        return Err(Error::new(pos, ErrorKind::NeedMore));
    }
    let c = enter_bits(pos);
    let (c, x) = U4::parse(b, c)?;
    let (c, y) = U4::parse(b, c)?;
    let q = exit_bits(c)?;
    Ok((q, (x, y)))
}

/// An IPv4 packet. Option bytes that the header length announces are
/// skipped; the layer-4 payload starts after them.
#[derive(Debug)]
pub struct Packet {
    pub version: U4,
    pub ihl: U4,
    pub dscp: U6,
    pub ecn: U2,
    pub length: u16,
    pub identification: u16,
    pub flags: U3,
    pub fragment_offset: U13,
    pub ttl: u8,
    pub src: Addr,
    pub dst: Addr,
    pub checksum: u16,
    pub protocol: Option<Protocol>,
    pub payload: Payload,
}

impl Packet {
    /// The header length in bytes: `ihl` 4-byte words, and never less than
    /// the 20 bytes of the fixed header.
    pub open spec fn header_len(b: Seq<u8>, pos: int) -> int {
        let ihl: int = bits_value(b, pos * 8 + 4, 4) as int;
        if ihl > 5 { ihl * 4 } else { 20 }
    }

    /// The protocol the header names.
    pub open spec fn spec_protocol(b: Seq<u8>, pos: int) -> Option<Protocol> {
        Protocol::spec_from_u8(b[pos + 9])
    }

    /// Decoding at `pos` succeeds exactly when the header is there and the
    /// payload of the protocol it names decodes.
    pub open spec fn ok(b: Seq<u8>, pos: int) -> bool {
        &&& has(b, pos, 20)
        &&& has(b, pos, Self::header_len(b, pos))
        &&& Payload::ok(b, pos + Self::header_len(b, pos), Self::spec_protocol(b, pos))
    }

    /// `p` is the packet at `pos`, which runs to `end`.
    pub open spec fn decoded(b: Seq<u8>, pos: int, end: int, p: Packet) -> bool {
        let k = pos * 8;
        &&& p.version@ == bits_value(b, k, 4)
        &&& p.ihl@ == bits_value(b, k + 4, 4)
        &&& p.dscp@ == bits_value(b, k + 8, 6)
        &&& p.ecn@ == bits_value(b, k + 14, 2)
        &&& p.length == be16(b, pos + 2)
        &&& p.identification == be16(b, pos + 4)
        &&& p.flags@ == bits_value(b, k + 48, 3)
        &&& p.fragment_offset@ == bits_value(b, k + 51, 13)
        &&& p.ttl == b[pos + 8]
        &&& p.protocol == Self::spec_protocol(b, pos)
        &&& p.checksum == be16(b, pos + 10)
        &&& p.src.0@ == b.subrange(pos + 12, pos + 16)
        &&& p.dst.0@ == b.subrange(pos + 16, pos + 20)
        &&& Payload::decoded(b, pos + Self::header_len(b, pos), end, p.protocol, p.payload)
    }

    fn dscp_ecn(b: &[u8], pos: usize) -> (r: Result<(usize, (U6, U2)), Error>)
        requires
            pos <= b@.len(),
        ensures
            r is Ok <==> has(b@, pos as int, 1),
            r matches Ok((q, (x, y))) ==> q == pos + 1 && x@ == bits_value(b@, pos * 8, 6) && y@
                == bits_value(b@, pos * 8 + 6, 2),
    {
        if pos >= b.len() {
            return Err(Error::new(pos, ErrorKind::NeedMore));
        }
        let c = enter_bits(pos);
        let (c, x) = U6::parse(b, c)?;
        let (c, y) = U2::parse(b, c)?;
        let q = exit_bits(c)?;
        Ok((q, (x, y)))
    }

    fn flags_fragment(b: &[u8], pos: usize) -> (r: Result<(usize, (U3, U13)), Error>)
        requires
            pos <= b@.len(),
        ensures
            r is Ok <==> has(b@, pos as int, 2),
            r matches Ok((q, (x, y))) ==> q == pos + 2 && x@ == bits_value(b@, pos * 8, 3) && y@
                == bits_value(b@, pos * 8 + 3, 13),
    {
        if b.len() - pos < 2 {
            return Err(Error::new(pos, ErrorKind::NeedMore));
        }
        let c = enter_bits(pos);
        let (c, x) = U3::parse(b, c)?;
        let (c, y) = U13::parse(b, c)?;
        let q = exit_bits(c)?;
        Ok((q, (x, y)))
    }

    fn fields(b: &[u8], pos: usize) -> (r: Result<(usize, Packet), Error>)
        requires
            pos <= b@.len(),
        ensures
            r is Ok <==> Self::ok(b@, pos as int),
            r matches Ok((q, p)) ==> Self::decoded(b@, pos as int, q as int, p),
    {
        if b.len() - pos < 20 {
            return Err(Error::new(pos, ErrorKind::NeedMore));
        }
        let (i, (version, ihl)) = parse_nibbles(b, pos)?;
        let (i, (dscp, ecn)) = Self::dscp_ecn(b, i)?;
        let (i, length) = be_u16(b, i)?;
        let (i, identification) = be_u16(b, i)?;
        let (i, (flags, fragment_offset)) = Self::flags_fragment(b, i)?;
        let (i, ttl) = be_u8(b, i)?;
        let (i, protocol) = Protocol::parse(b, i)?;
        let (i, checksum) = be_u16(b, i)?;
        let (i, src) = Addr::parse(b, i)?;
        let (i, dst) = Addr::parse(b, i)?;
        let words = ihl.value();
        let hlen: usize = if words > 5 { (words as usize) * 4 } else { 20 };
        if hlen > b.len() - pos {
            return Err(Error::new(i, ErrorKind::NeedMore));
        }
        let (q, payload) = Payload::parse(b, pos + hlen, protocol)?;
        let p = Packet {
            version,
            ihl,
            dscp,
            ecn,
            length,
            identification,
            flags,
            fragment_offset,
            ttl,
            src,
            dst,
            checksum,
            protocol,
            payload,
        };
        Ok((q, p))
    }

    /// The packet at `pos`, with the payload its protocol names; a payload
    /// that fails to decode fails the packet.
    pub fn parse_at(b: &[u8], pos: usize) -> (r: Result<(usize, Packet), Error>)
        requires
            pos <= b@.len(),
        ensures
            r is Ok <==> Self::ok(b@, pos as int),
            r matches Ok((q, p)) ==> Self::decoded(b@, pos as int, q as int, p),
            r matches Err(e) ==> ends_in(e, pos as int, Label::Ipv4Frame),
    {
        match Self::fields(b, pos) {
            Ok(x) => Ok(x),
            Err(e) => Err(e.context(pos, Label::Ipv4Frame)),
        }
    }

    /// The packet at the start of `i`, and what is left of `i`.
    pub fn parse(i: &[u8]) -> (r: Result<(&[u8], Packet), Error>)
        ensures
            r is Ok <==> Self::ok(i@, 0),
            r matches Ok((rest, p)) ==> is_rest(i@, rest@) && Self::decoded(
                i@,
                0,
                consumed_len(i@, rest@),
                p,
            ),
            r matches Err(e) ==> ends_in(e, 0, Label::Ipv4Frame),
    {
        let (q, p) = Self::parse_at(i, 0)?;
        Ok((rest_of(i, q), p))
    }
}

/// In a decoded IPv4 packet the payload is the one the protocol names: TCP
/// carries a TCP segment, UDP a datagram, ICMP a message, and any other
/// protocol nothing decoded.
pub proof fn lemma_payload_follows_protocol(b: Seq<u8>, pos: int, end: int, p: Packet)
    requires
        Packet::decoded(b, pos, end, p),
    ensures
        p.protocol == Some(Protocol::TCP) ==> p.payload is TCP,
        p.protocol == Some(Protocol::UDP) ==> p.payload is UDP,
        p.protocol == Some(Protocol::ICMP) ==> p.payload is ICMP,
        p.protocol == Some(Protocol::Unknown) ==> p.payload is Unknown,
{
}

} // verus!
