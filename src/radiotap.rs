//! The RadioTap header that precedes 802.11 frames in some captures.
use vstd::prelude::*;
use crate::parse::{
    Error, ErrorKind, Label, consumed_len, ends_in, has, is_rest, le16, le32, le_u16, le_u32, rest_of,
};

verus! {

/// The fixed RadioTap fields. The header is `it_len` bytes long; whatever
/// follows the fixed fields inside it is skipped.
#[derive(Debug, Clone, Copy, PartialEq, Eq, Structural)]
pub struct RadioTapHeader {
    pub it_version: u8,
    pub it_pad: u8,
    pub it_len: u16,
    pub it_present: u32,
}

impl RadioTapHeader {
    /// Decoding at `pos` succeeds exactly when the 8 fixed bytes and the
    /// `it_len` bytes of the header are there.
    pub open spec fn ok(b: Seq<u8>, pos: int) -> bool {
        &&& has(b, pos, 8)
        &&& has(b, pos, le16(b, pos + 2))
    }

    /// `h` is the header at `pos`, which ends `it_len` bytes after `pos`.
    pub open spec fn decoded(b: Seq<u8>, pos: int, end: int, h: RadioTapHeader) -> bool {
        &&& h.it_version == b[pos]
        &&& h.it_pad == b[pos + 1]
        &&& h.it_len == le16(b, pos + 2)
        &&& h.it_present == le32(b, pos + 4)
        &&& end == pos + h.it_len
    }

    fn fields(b: &[u8], pos: usize) -> (r: Result<(usize, RadioTapHeader), Error>)
        requires
            pos <= b@.len(),
        ensures
            r is Ok <==> Self::ok(b@, pos as int),
            r matches Ok((q, h)) ==> Self::decoded(b@, pos as int, q as int, h),
    {
        if b.len() - pos < 8 {
            return Err(Error::new(pos, ErrorKind::NeedMore));
        }
        let (i, it_len) = le_u16(b, pos + 2)?;
        let (_, it_present) = le_u32(b, i)?;
        if it_len as usize > b.len() - pos {
            return Err(Error::new(pos, ErrorKind::NeedMore));
        }
        let h = RadioTapHeader { it_version: b[pos], it_pad: b[pos + 1], it_len, it_present };
        Ok((pos + it_len as usize, h))
    }

    /// The header at `pos`; it consumes `it_len` bytes.
    pub fn parse_at(b: &[u8], pos: usize) -> (r: Result<(usize, RadioTapHeader), Error>)
        requires
            pos <= b@.len(),
        ensures
            r is Ok <==> Self::ok(b@, pos as int),
            r matches Ok((q, h)) ==> Self::decoded(b@, pos as int, q as int, h),
            r matches Err(e) ==> ends_in(e, pos as int, Label::RadioTapHeader),
    {
        match Self::fields(b, pos) {
            Ok(x) => Ok(x),
            Err(e) => Err(e.context(pos, Label::RadioTapHeader)),
        }
    }

    /// The header at the start of `i`, and what is left of `i`.
    pub fn parse(i: &[u8]) -> (r: Result<(&[u8], RadioTapHeader), Error>)
        ensures
            r is Ok <==> Self::ok(i@, 0),
            r matches Ok((rest, h)) ==> is_rest(i@, rest@) && Self::decoded(
                i@,
                0,
                consumed_len(i@, rest@),
                h,
            ),
            r matches Err(e) ==> ends_in(e, 0, Label::RadioTapHeader),
    {
        let (q, h) = Self::parse_at(i, 0)?;
        Ok((rest_of(i, q), h))
    }
}

} // verus!
