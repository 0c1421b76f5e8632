//! 802.11 data frame bodies and the LLC/SNAP headers that open them.
use vstd::prelude::*;
use crate::blob::Blob;
use crate::datalink::EtherType;
use crate::parse::{Error, ErrorKind, Label, be16, ends_in, has};

verus! {

/// The body of a data frame, kept as bytes.
#[derive(Debug)]
pub struct DataFrameBody {
    pub payload: Blob,
}

impl DataFrameBody {
    /// Where the body at `pos` ends: four bytes before the end of the input,
    /// which are left for the frame's FCS, or at `pos` where fewer are left.
    pub open spec fn end(b: Seq<u8>, pos: int) -> int {
        if b.len() - pos >= 4 {
            b.len() - 4
        } else {
            pos
        }
    }

    /// `x` is the body at `pos`: every byte up to its end.
    pub open spec fn decoded(b: Seq<u8>, pos: int, x: DataFrameBody) -> bool {
        x.payload@ == b.subrange(pos, Self::end(b, pos))
    }

    /// The body at `pos`, `b` ending with the frame's FCS; the returned
    /// position is where the body ends. This never fails.
    pub fn parse(b: &[u8], pos: usize) -> (r: (usize, DataFrameBody))
        requires
            pos <= b@.len(),
        ensures
            r.0 == Self::end(b@, pos as int),
            Self::decoded(b@, pos as int, r.1),
    {
        let end = if b.len() - pos >= 4 { b.len() - 4 } else { pos };
        (end, DataFrameBody { payload: Blob::new(vstd::slice::slice_subrange(b, pos, end)) })
    }
}

/// An IEEE 802.2 LLC header.
#[derive(Debug, Clone, Copy, PartialEq, Eq, Structural)]
pub struct LLCHeader {
    pub dsap: u8,
    pub ssap: u8,
    pub ctrl: u8,
}

impl LLCHeader {
    /// The three bytes at `pos`.
    pub fn parse(b: &[u8], pos: usize) -> (r: Result<(usize, LLCHeader), Error>)
        requires
            pos <= b@.len(),
        ensures
            r is Ok <==> has(b@, pos as int, 3),
            r matches Ok((q, h)) ==> q == pos + 3 && h.dsap == b@[pos as int] && h.ssap == b@[pos
                + 1] && h.ctrl == b@[pos + 2],
            r matches Err(e) ==> ends_in(e, pos as int, Label::DataBody),
    {
        if b.len() - pos < 3 {
            return Err(Error::new(pos, ErrorKind::NeedMore).context(pos, Label::DataBody));
        }
        Ok((pos + 3, LLCHeader { dsap: b[pos], ssap: b[pos + 1], ctrl: b[pos + 2] }))
    }
}

/// A SNAP header: a 3-byte organisation code, skipped, and an EtherType.
#[derive(Debug, Clone, Copy, PartialEq, Eq, Structural)]
pub struct SNAPHeader {
    pub ether_type: Option<EtherType>,
}

impl SNAPHeader {
    /// The five bytes at `pos`.
    pub fn parse(b: &[u8], pos: usize) -> (r: Result<(usize, SNAPHeader), Error>)
        requires
            pos <= b@.len(),
        ensures
            r is Ok <==> has(b@, pos as int, 5),
            r matches Ok((q, h)) ==> q == pos + 5 && h.ether_type == EtherType::spec_from_u16(
                be16(b@, pos + 3),
            ),
            r matches Err(e) ==> ends_in(e, pos as int, Label::DataBody),
    {
        if b.len() - pos < 5 {
            return Err(Error::new(pos, ErrorKind::NeedMore).context(pos, Label::DataBody));
        }
        match EtherType::parse(b, pos + 3) {
            Ok((q, ether_type)) => Ok((q, SNAPHeader { ether_type })),
            Err(e) => Err(e.context(pos, Label::DataBody)),
        }
    }
}

} // verus!
