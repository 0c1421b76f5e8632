//! The top-level dispatch: a datalink identifier selects the decoder of the
//! captured buffer.
use vstd::prelude::*;
use crate::dot11;
use crate::ethernet;
use crate::parse::{Error, ErrorKind, consumed_len, is_failure, is_rest, rest_of};
use crate::radiotap::RadioTapHeader;

verus! {

/// Ethernet (IEEE 802.3).
pub const LINKTYPE_ETHERNET: u16 = 1;

/// A bare IEEE 802.11 frame.
pub const LINKTYPE_IEEE802_11: u16 = 105;

/// An IEEE 802.11 frame behind a RadioTap header.
pub const LINKTYPE_IEEE802_11_RADIOTAP: u16 = 127;

/// An IEEE 802.11 frame behind an AVS header, read as a RadioTap header.
pub const LINKTYPE_IEEE802_11_AVS: u16 = 163;

/// A decoded captured frame.
#[derive(Debug)]
pub enum LinkFrame {
    Ethernet(ethernet::Frame),
    Dot11(dot11::Frame),
    RadioTap(RadioTapHeader, dot11::Frame),
}

/// The link types this decoder supports.
pub open spec fn supported(link_type: u16) -> bool {
    link_type == LINKTYPE_ETHERNET || link_type == LINKTYPE_IEEE802_11 || link_type
        == LINKTYPE_IEEE802_11_RADIOTAP || link_type == LINKTYPE_IEEE802_11_AVS
}

/// Whether the frame behind a RadioTap header at the start of `b` decodes.
pub open spec fn radiotap_ok(b: Seq<u8>) -> bool {
    RadioTapHeader::ok(b, 0) && dot11::Frame::ok(b, crate::parse::le16(b, 2))
}

impl LinkFrame {
    /// Decoding `b` as `link_type` succeeds.
    pub open spec fn ok(link_type: u16, b: Seq<u8>) -> bool {
        if link_type == LINKTYPE_ETHERNET {
            ethernet::Frame::ok(b, 0)
        } else if link_type == LINKTYPE_IEEE802_11 {
            dot11::Frame::ok(b, 0)
        } else if link_type == LINKTYPE_IEEE802_11_RADIOTAP || link_type == LINKTYPE_IEEE802_11_AVS {
            radiotap_ok(b)
        } else {
            false
        }
    }

    /// `f` is `b` decoded as `link_type`, ending at `end`.
    pub open spec fn decoded(link_type: u16, b: Seq<u8>, end: int, f: LinkFrame) -> bool {
        if link_type == LINKTYPE_ETHERNET {
            f matches LinkFrame::Ethernet(e) && ethernet::Frame::decoded(b, 0, end, e)
        } else if link_type == LINKTYPE_IEEE802_11 {
            f matches LinkFrame::Dot11(d) && dot11::Frame::decoded(b, 0, end, d)
        } else {
            f matches LinkFrame::RadioTap(h, d) && RadioTapHeader::decoded(b, 0, h.it_len as int, h)
                && dot11::Frame::decoded(b, h.it_len as int, end, d)
        }
    }
}

/// Decodes a captured buffer by its datalink identifier: 1 is Ethernet, 105
/// a bare 802.11 frame, 127 and 163 an 802.11 frame behind a RadioTap header.
/// Any other identifier fails with `UnsupportedLinkType`.
pub fn decode_link_frame(link_type: u16, bytes: &[u8]) -> (r: Result<(&[u8], LinkFrame), Error>)
    ensures
        r is Ok <==> LinkFrame::ok(link_type, bytes@),
        r matches Ok((rest, f)) ==> is_rest(bytes@, rest@) && LinkFrame::decoded(
            link_type,
            bytes@,
            consumed_len(bytes@, rest@),
            f,
        ),
        !supported(link_type) ==> (r matches Err(e) && is_failure(
            e,
            0,
            ErrorKind::UnsupportedLinkType(link_type),
        )),
{
    if link_type == LINKTYPE_ETHERNET {
        let (q, f) = ethernet::Frame::parse_at(bytes, 0)?;
        Ok((rest_of(bytes, q), LinkFrame::Ethernet(f)))
    } else if link_type == LINKTYPE_IEEE802_11 {
        let (q, f) = dot11::Frame::parse_at(bytes, 0)?;
        Ok((rest_of(bytes, q), LinkFrame::Dot11(f)))
    } else if link_type == LINKTYPE_IEEE802_11_RADIOTAP || link_type == LINKTYPE_IEEE802_11_AVS {
        let (i, h) = RadioTapHeader::parse_at(bytes, 0)?;
        let (q, f) = dot11::Frame::parse_at(bytes, i)?;
        Ok((rest_of(bytes, q), LinkFrame::RadioTap(h, f)))
    } else {
        Err(Error::new(0, ErrorKind::UnsupportedLinkType(link_type)))
    }
}

} // verus!
