//! ARP requests and replies (RFC 826).
use vstd::prelude::*;
use crate::datalink::{Addr, EtherType};
use crate::ipv4;
use crate::parse::{
    Error, ErrorKind, Label, be16, be_u16, be_u8, consumed_len, ends_in, has, is_rest, rest_of,
};

verus! {

#[derive(Debug, Clone, Copy, PartialEq, Eq, Structural)]
pub enum Operation {
    ARPRequest,
    ARPReply,
    RARPRequest,
    RARPReply,
    DRARPRequest,
    DRARPReply,
    DRARPError,
    InARPRequest,
    InARPReply,
}

impl Operation {
    /// The operation a code names, if any.
    pub open spec fn spec_from_u16(v: int) -> Option<Operation> {
        if v == 1 {
            Some(Operation::ARPRequest)
        } else if v == 2 {
            Some(Operation::ARPReply)
        } else if v == 3 {
            Some(Operation::RARPRequest)
        } else if v == 4 {
            Some(Operation::RARPReply)
        } else if v == 5 {
            Some(Operation::DRARPRequest)
        } else if v == 6 {
            Some(Operation::DRARPReply)
        } else if v == 7 {
            Some(Operation::DRARPError)
        } else if v == 8 {
            Some(Operation::InARPRequest)
        } else if v == 9 {
            Some(Operation::InARPReply)
        } else {
            None
        }
    }

    pub fn from_u16(v: u16) -> (r: Option<Operation>)
        ensures
            r == Self::spec_from_u16(v as int),
    {
        match v {
            1 => Some(Operation::ARPRequest),
            2 => Some(Operation::ARPReply),
            3 => Some(Operation::RARPRequest),
            4 => Some(Operation::RARPReply),
            5 => Some(Operation::DRARPRequest),
            6 => Some(Operation::DRARPReply),
            7 => Some(Operation::DRARPError),
            8 => Some(Operation::InARPRequest),
            9 => Some(Operation::InARPReply),
            _ => None,
        }
    }

    /// A big-endian operation code at `pos`; an unknown code gives `None`.
    pub fn parse(b: &[u8], pos: usize) -> (r: Result<(usize, Option<Operation>), Error>)
        requires
            pos <= b@.len(),
        ensures
            r is Ok <==> has(b@, pos as int, 2),
            r matches Ok((q, o)) ==> q == pos + 2 && o == Self::spec_from_u16(be16(b@, pos as int)),
    {
        let (q, v) = be_u16(b, pos)?;
        Ok((q, Self::from_u16(v)))
    }
}

#[allow(non_camel_case_types)]
#[derive(Debug, Clone, Copy, PartialEq, Eq, Structural)]
pub enum HardwareType {
    Ethernet,
    IEEE_802_Networks,
    ARCNET,
    FrameRelay,
    AsyncTransferMode1,
    HDLC,
    FibreChannel,
    AsyncTransferMode2,
    SerialLine,
}

impl HardwareType {
    /// The hardware type a code names, if any.
    pub open spec fn spec_from_u16(v: int) -> Option<HardwareType> {
        if v == 1 {
            Some(HardwareType::Ethernet)
        } else if v == 6 {
            Some(HardwareType::IEEE_802_Networks)
        } else if v == 7 {
            Some(HardwareType::ARCNET)
        } else if v == 15 {
            Some(HardwareType::FrameRelay)
        } else if v == 16 {
            Some(HardwareType::AsyncTransferMode1)
        } else if v == 17 {
            Some(HardwareType::HDLC)
        } else if v == 18 {
            Some(HardwareType::FibreChannel)
        } else if v == 19 {
            Some(HardwareType::AsyncTransferMode2)
        } else if v == 20 {
            Some(HardwareType::SerialLine)
        } else {
            None
        }
    }

    pub fn from_u16(v: u16) -> (r: Option<HardwareType>)
        ensures
            r == Self::spec_from_u16(v as int),
    {
        match v {
            1 => Some(HardwareType::Ethernet),
            6 => Some(HardwareType::IEEE_802_Networks),
            7 => Some(HardwareType::ARCNET),
            15 => Some(HardwareType::FrameRelay),
            16 => Some(HardwareType::AsyncTransferMode1),
            17 => Some(HardwareType::HDLC),
            18 => Some(HardwareType::FibreChannel),
            19 => Some(HardwareType::AsyncTransferMode2),
            20 => Some(HardwareType::SerialLine),
            _ => None,
        }
    }

    /// A big-endian hardware type at `pos`; an unknown code gives `None`.
    pub fn parse(b: &[u8], pos: usize) -> (r: Result<(usize, Option<HardwareType>), Error>)
        requires
            pos <= b@.len(),
        ensures
            r is Ok <==> has(b@, pos as int, 2),
            r matches Ok((q, h)) ==> q == pos + 2 && h == Self::spec_from_u16(be16(b@, pos as int)),
    {
        let (q, v) = be_u16(b, pos)?;
        Ok((q, Self::from_u16(v)))
    }
}

/// An ARP packet for 6-byte hardware and 4-byte protocol addresses.
#[derive(Debug)]
pub struct Packet {
    pub htype: Option<HardwareType>,
    pub ptype: Option<EtherType>,
    pub hlen: u8,
    pub plen: u8,
    pub operation: Option<Operation>,
    pub sender_hw_addr: Addr,
    pub sender_ip_addr: ipv4::Addr,
    pub target_hw_addr: Addr,
    pub target_ip_addr: ipv4::Addr,
}

impl Packet {
    /// Decoding at `pos` succeeds exactly when the 28 bytes are there.
    pub open spec fn ok(b: Seq<u8>, pos: int) -> bool {
        has(b, pos, 28)
    }

    /// `p` is the packet at `pos`, which ends at `end`.
    pub open spec fn decoded(b: Seq<u8>, pos: int, end: int, p: Packet) -> bool {
        &&& p.htype == HardwareType::spec_from_u16(be16(b, pos))
        &&& p.ptype == EtherType::spec_from_u16(be16(b, pos + 2))
        &&& p.hlen == b[pos + 4]
        &&& p.plen == b[pos + 5]
        &&& p.operation == Operation::spec_from_u16(be16(b, pos + 6))
        &&& p.sender_hw_addr.0@ == b.subrange(pos + 8, pos + 14)
        &&& p.sender_ip_addr.0@ == b.subrange(pos + 14, pos + 18)
        &&& p.target_hw_addr.0@ == b.subrange(pos + 18, pos + 24)
        &&& p.target_ip_addr.0@ == b.subrange(pos + 24, pos + 28)
        &&& end == pos + 28
    }

    fn fields(b: &[u8], pos: usize) -> (r: Result<(usize, Packet), Error>)
        requires
            pos <= b@.len(),
        ensures
            r is Ok <==> Self::ok(b@, pos as int),
            r matches Ok((q, p)) ==> Self::decoded(b@, pos as int, q as int, p),
    {
        if b.len() - pos < 28 {
            return Err(Error::new(pos, ErrorKind::NeedMore));
        }
        let (i, htype) = HardwareType::parse(b, pos)?;
        let (i, ptype) = EtherType::parse(b, i)?;
        let (i, hlen) = be_u8(b, i)?;
        let (i, plen) = be_u8(b, i)?;
        let (i, operation) = Operation::parse(b, i)?;
        let (i, sender_hw_addr) = Addr::parse(b, i)?;
        let (i, sender_ip_addr) = ipv4::Addr::parse(b, i)?;
        let (i, target_hw_addr) = Addr::parse(b, i)?;
        let (i, target_ip_addr) = ipv4::Addr::parse(b, i)?;
        let p = Packet {
            htype,
            ptype,
            hlen,
            plen,
            operation,
            sender_hw_addr,
            sender_ip_addr,
            target_hw_addr,
            target_ip_addr,
        };
        Ok((i, p))
    }

    /// The packet at `pos`.
    pub fn parse_at(b: &[u8], pos: usize) -> (r: Result<(usize, Packet), Error>)
        requires
            pos <= b@.len(),
        ensures
            r is Ok <==> Self::ok(b@, pos as int),
            r matches Ok((q, p)) ==> Self::decoded(b@, pos as int, q as int, p),
            r matches Err(e) ==> ends_in(e, pos as int, Label::ArpFrame),
    {
        match Self::fields(b, pos) {
            Ok(x) => Ok(x),
            Err(e) => Err(e.context(pos, Label::ArpFrame)),
        }
    }

    /// The packet at the start of `i`, and what is left of `i`.
    pub fn parse(i: &[u8]) -> (r: Result<(&[u8], Packet), Error>)
        ensures
            r is Ok <==> Self::ok(i@, 0),
            r matches Ok((rest, p)) ==> is_rest(i@, rest@) && Self::decoded(
                i@,
                0,
                consumed_len(i@, rest@),
                p,
            ),
            r matches Err(e) ==> ends_in(e, 0, Label::ArpFrame),
    {
        let (q, p) = Self::parse_at(i, 0)?;
        Ok((rest_of(i, q), p))
    }
}

} // verus!
