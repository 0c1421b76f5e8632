//! UDP datagrams (RFC 768).
use vstd::prelude::*;
use crate::blob::Blob;
use crate::parse::{Error, Label, be16, be_u16, ends_in, has, is_rest, consumed_len, rest_of};

verus! {

/// A UDP datagram: the fixed 8-byte header and the rest of the input as payload.
#[derive(Debug)]
pub struct Datagram {
    pub src_port: u16,
    pub dst_port: u16,
    pub len: u16,
    pub checksum: u16,
    pub payload: Blob,
}

impl Datagram {
    /// Decoding at `pos` succeeds exactly when the header is there.
    pub open spec fn ok(b: Seq<u8>, pos: int) -> bool {
        has(b, pos, 8)
    }

    /// `d` is the datagram at `pos`, which runs to `end`.
    pub open spec fn decoded(b: Seq<u8>, pos: int, end: int, d: Datagram) -> bool {
        &&& d.src_port == be16(b, pos)
        &&& d.dst_port == be16(b, pos + 2)
        &&& d.len == be16(b, pos + 4)
        &&& d.checksum == be16(b, pos + 6)
        &&& d.payload@ == b.subrange(pos + 8, b.len() as int)
        &&& end == b.len()
    }

    fn fields(b: &[u8], pos: usize) -> (r: Result<(usize, Datagram), Error>)
        requires
            pos <= b@.len(),
        ensures
            r is Ok <==> Self::ok(b@, pos as int),
            r matches Ok((q, d)) ==> Self::decoded(b@, pos as int, q as int, d),
    {
        let (i, src_port) = be_u16(b, pos)?;
        let (i, dst_port) = be_u16(b, i)?;
        let (i, len) = be_u16(b, i)?;
        let (i, checksum) = be_u16(b, i)?;
        let payload = Blob::new(rest_of(b, i));
        Ok((b.len(), Datagram { src_port, dst_port, len, checksum, payload }))
    }

    /// The datagram at `pos`; it consumes the rest of the input.
    pub fn parse_at(b: &[u8], pos: usize) -> (r: Result<(usize, Datagram), Error>)
        requires
            pos <= b@.len(),
        ensures
            r is Ok <==> Self::ok(b@, pos as int),
            r matches Ok((q, d)) ==> Self::decoded(b@, pos as int, q as int, d),
            r matches Err(e) ==> ends_in(e, pos as int, Label::UdpFrame),
    {
        match Self::fields(b, pos) {
            Ok(x) => Ok(x),
            Err(e) => Err(e.context(pos, Label::UdpFrame)),
        }
    }

    /// The datagram at the start of `i`, and what is left of `i`.
    pub fn parse(i: &[u8]) -> (r: Result<(&[u8], Datagram), Error>)
        ensures
            r is Ok <==> Self::ok(i@, 0),
            r matches Ok((rest, d)) ==> is_rest(i@, rest@) && Self::decoded(
                i@,
                0,
                consumed_len(i@, rest@),
                d,
            ),
            r matches Err(e) ==> ends_in(e, 0, Label::UdpFrame),
    {
        let (q, d) = Self::parse_at(i, 0)?;
        Ok((rest_of(i, q), d))
    }
}

} // verus!
