//! ICMP messages (RFC 792).
use vstd::prelude::*;
use crate::blob::Blob;
use crate::parse::{
    Error, Label, be16, be32, be_u16, be_u32, be_u8, consumed_len, ends_in, has, is_rest, rest_of,
};

verus! {

/// The message type, with the code where the type gives it a meaning.
#[derive(Debug, Clone, Copy, PartialEq, Eq, Structural)]
pub enum Type {
    EchoReply,
    DestinationUnreachable(DestinationUnreachable),
    EchoRequest,
    TimeExceeded(TimeExceeded),
    Other(u8, u8),
}

#[derive(Debug, Clone, Copy, PartialEq, Eq, Structural)]
pub enum DestinationUnreachable {
    HostUnreachable,
    Other(u8),
}

#[derive(Debug, Clone, Copy, PartialEq, Eq, Structural)]
pub enum TimeExceeded {
    TTLExpired,
    Other(u8),
}

/// The identifier and sequence number of an echo message.
#[derive(Debug, Clone, Copy, PartialEq, Eq, Structural)]
pub struct Echo {
    pub identifier: u16,
    pub sequence_number: u16,
}

/// The four bytes after the checksum: an echo header, or opaque.
#[derive(Debug, Clone, Copy, PartialEq, Eq, Structural)]
pub enum Header {
    EchoRequest(Echo),
    EchoReply(Echo),
    Other(u32),
}

impl DestinationUnreachable {
    pub open spec fn spec_from(code: u8) -> DestinationUnreachable {
        if code == 1 {
            DestinationUnreachable::HostUnreachable
        } else {
            DestinationUnreachable::Other(code)
        }
    }
}

impl TimeExceeded {
    pub open spec fn spec_from(code: u8) -> TimeExceeded {
        if code == 0 {
            TimeExceeded::TTLExpired
        } else {
            TimeExceeded::Other(code)
        }
    }
}

impl Type {
    /// The type that a (type, code) pair names.
    pub open spec fn spec_from(typ: u8, code: u8) -> Type {
        if typ == 0 {
            Type::EchoReply
        } else if typ == 3 {
            Type::DestinationUnreachable(DestinationUnreachable::spec_from(code))
        } else if typ == 8 {
            Type::EchoRequest
        } else if typ == 11 {
            Type::TimeExceeded(TimeExceeded::spec_from(code))
        } else {
            Type::Other(typ, code)
        }
    }
}

impl From<u8> for DestinationUnreachable {
    fn from(x: u8) -> (r: DestinationUnreachable) {
        if x == 1 {
            DestinationUnreachable::HostUnreachable
        } else {
            DestinationUnreachable::Other(x)
        }
    }
}

impl vstd::std_specs::convert::FromSpecImpl<u8> for DestinationUnreachable {
    open spec fn obeys_from_spec() -> bool {
        true
    }

    open spec fn from_spec(x: u8) -> DestinationUnreachable {
        DestinationUnreachable::spec_from(x)
    }
}

impl From<u8> for TimeExceeded {
    fn from(x: u8) -> (r: TimeExceeded) {
        if x == 0 {
            TimeExceeded::TTLExpired
        } else {
            TimeExceeded::Other(x)
        }
    }
}

impl vstd::std_specs::convert::FromSpecImpl<u8> for TimeExceeded {
    open spec fn obeys_from_spec() -> bool {
        true
    }

    open spec fn from_spec(x: u8) -> TimeExceeded {
        TimeExceeded::spec_from(x)
    }
}

impl From<(u8, u8)> for Type {
    fn from(x: (u8, u8)) -> (r: Type) {
        let (typ, code) = x;
        if typ == 0 {
            Type::EchoReply
        } else if typ == 3 {
            Type::DestinationUnreachable(DestinationUnreachable::from(code))
        } else if typ == 8 {
            Type::EchoRequest
        } else if typ == 11 {
            Type::TimeExceeded(TimeExceeded::from(code))
        } else {
            Type::Other(typ, code)
        }
    }
}

impl vstd::std_specs::convert::FromSpecImpl<(u8, u8)> for Type {
    open spec fn obeys_from_spec() -> bool {
        true
    }

    open spec fn from_spec(x: (u8, u8)) -> Type {
        Type::spec_from(x.0, x.1)
    }
}

/// An ICMP message: the rest of the input after the 8-byte header is payload.
#[derive(Debug)]
pub struct Packet {
    pub typ: Type,
    pub checksum: u16,
    pub header: Header,
    pub payload: Blob,
}

impl Packet {
    /// Decoding at `pos` succeeds exactly when the 8-byte header is there.
    pub open spec fn ok(b: Seq<u8>, pos: int) -> bool {
        has(b, pos, 8)
    }

    /// `p` is the message at `pos`, which runs to `end`: echo messages read
    /// an identifier and a sequence number, every other type an opaque word.
    pub open spec fn decoded(b: Seq<u8>, pos: int, end: int, p: Packet) -> bool {
        let t = Type::spec_from(b[pos], b[pos + 1]);
        &&& p.typ == t
        &&& p.checksum == be16(b, pos + 2)
        &&& p.header == (match t {
            Type::EchoRequest => Header::EchoRequest(
                Echo { identifier: be16(b, pos + 4) as u16, sequence_number: be16(b, pos + 6) as u16 },
            ),
            Type::EchoReply => Header::EchoReply(
                Echo { identifier: be16(b, pos + 4) as u16, sequence_number: be16(b, pos + 6) as u16 },
            ),
            _ => Header::Other(be32(b, pos + 4) as u32),
        })
        &&& p.payload@ == b.subrange(pos + 8, b.len() as int)
        &&& end == b.len()
    }

    fn echo(b: &[u8], pos: usize) -> (r: Result<(usize, Echo), Error>)
        requires
            pos <= b@.len(),
        ensures
            r is Ok <==> has(b@, pos as int, 4),
            r matches Ok((q, e)) ==> q == pos + 4 && e.identifier == be16(b@, pos as int)
                && e.sequence_number == be16(b@, pos + 2),
    {
        let (i, identifier) = be_u16(b, pos)?;
        let (i, sequence_number) = be_u16(b, i)?;
        Ok((i, Echo { identifier, sequence_number }))
    }

    fn fields(b: &[u8], pos: usize) -> (r: Result<(usize, Packet), Error>)
        requires
            pos <= b@.len(),
        ensures
            r is Ok <==> Self::ok(b@, pos as int),
            r matches Ok((q, p)) ==> Self::decoded(b@, pos as int, q as int, p),
    {
        if b.len() - pos < 8 {
            return Err(Error::new(pos, crate::parse::ErrorKind::NeedMore));
        }
        let (i, t) = be_u8(b, pos)?;
        let (i, code) = be_u8(b, i)?;
        let typ = Type::from((t, code));
        let (i, checksum) = be_u16(b, i)?;
        let (i, header) = match typ {
            Type::EchoRequest => {
                let (i, e) = Self::echo(b, i)?;
                (i, Header::EchoRequest(e))
            },
            Type::EchoReply => {
                let (i, e) = Self::echo(b, i)?;
                (i, Header::EchoReply(e))
            },
            _ => {
                let (i, w) = be_u32(b, i)?;
                (i, Header::Other(w))
            },
        };
        let payload = Blob::new(rest_of(b, i));
        Ok((b.len(), Packet { typ, checksum, header, payload }))
    }

    /// The message at `pos`; it consumes the rest of the input.
    pub fn parse_at(b: &[u8], pos: usize) -> (r: Result<(usize, Packet), Error>)
        requires
            pos <= b@.len(),
        ensures
            r is Ok <==> Self::ok(b@, pos as int),
            r matches Ok((q, p)) ==> Self::decoded(b@, pos as int, q as int, p),
            r matches Err(e) ==> ends_in(e, pos as int, Label::IcmpFrame),
    {
        match Self::fields(b, pos) {
            Ok(x) => Ok(x),
            Err(e) => Err(e.context(pos, Label::IcmpFrame)),
        }
    }

    /// The message at the start of `i`, and what is left of `i`.
    pub fn parse(i: &[u8]) -> (r: Result<(&[u8], Packet), Error>)
        ensures
            r is Ok <==> Self::ok(i@, 0),
            r matches Ok((rest, p)) ==> is_rest(i@, rest@) && Self::decoded(
                i@,
                0,
                consumed_len(i@, rest@),
                p,
            ),
            r matches Err(e) ==> ends_in(e, 0, Label::IcmpFrame),
    {
        let (q, p) = Self::parse_at(i, 0)?;
        Ok((rest_of(i, q), p))
    }
}

} // verus!
