//! IEEE 802.11 MAC frames: frame control, the addresses the frame type and
//! direction bits select, sequence control, the body and the FCS.
use vstd::prelude::*;
use vstd::arithmetic::power2::lemma2_to64;
use crate::blob::Blob;
use crate::data::DataFrameBody;
use crate::datalink::Addr;
use crate::management::{
    Element,     AssociationRequestFrameBody, AssociationResponseFrameBody, AuthenticationFrameBody,
    BeaconFrameBody, DeauthenticationFrameBody, ProbeRequestFrameBody, ProbeResponseFrameBody,
    ReassociationRequestFrameBody,
};
use crate::parse::{
    Error, ErrorKind, Label, bits_value, consumed_len, ends_in, get_bits, has, is_rest, le16, le32,
    le_u16, le_u32, rest_of,
};
use crate::ux::{U1, U12, U2, U4};

verus! {

/// An address of the MAC header, tagged with the role the frame type and
/// direction bits give it.
#[derive(Debug, Clone, Copy)]
pub enum Dot11Addr {
    /// The station that will process the network-layer packet in the frame.
    DestinationAddress(Addr),
    /// The station that will decode the radio waves into an 802.11 frame.
    ReceiverAddress(Addr),
    /// The station that generated the network-layer packet in the frame.
    SourceAddress(Addr),
    /// The station that put the frame on the radio link.
    TransmitterAddress(Addr),
    /// The access point's address, naming the basic service set.
    BSSID(Addr),
}

impl Dot11Addr {
    /// The address, whatever its role.
    pub open spec fn spec_addr(self) -> Addr {
        match self {
            Dot11Addr::DestinationAddress(a) => a,
            Dot11Addr::ReceiverAddress(a) => a,
            Dot11Addr::SourceAddress(a) => a,
            Dot11Addr::TransmitterAddress(a) => a,
            Dot11Addr::BSSID(a) => a,
        }
    }

    /// The address, whatever its role.
    pub fn addr(&self) -> (r: Addr)
        ensures
            r == self.spec_addr(),
    {
        match self {
            Dot11Addr::DestinationAddress(a) => *a,
            Dot11Addr::ReceiverAddress(a) => *a,
            Dot11Addr::SourceAddress(a) => *a,
            Dot11Addr::TransmitterAddress(a) => *a,
            Dot11Addr::BSSID(a) => *a,
        }
    }
}

/// The frame type.
#[derive(Debug, Clone, Copy, PartialEq, Eq, Structural)]
pub enum Type {
    Management,
    Control,
    Data,
    Extension,
}

impl Type {
    /// The type a 2-bit value names.
    pub open spec fn spec_from(v: nat) -> Type {
        if v == 0 {
            Type::Management
        } else if v == 1 {
            Type::Control
        } else if v == 2 {
            Type::Data
        } else {
            Type::Extension
        }
    }
}

impl From<U2> for Type {
    fn from(i: U2) -> (r: Type) {
        let v = i.value();
        if v == 0 {
            Type::Management
        } else if v == 1 {
            Type::Control
        } else if v == 2 {
            Type::Data
        } else {
            Type::Extension
        }
    }
}

impl vstd::std_specs::convert::FromSpecImpl<U2> for Type {
    open spec fn obeys_from_spec() -> bool {
        true
    }

    open spec fn from_spec(i: U2) -> Type {
        Type::spec_from(i@)
    }
}

/// The frame subtype, read together with the frame type.
#[allow(non_camel_case_types)]
#[derive(Debug, Clone, Copy, PartialEq, Eq, Structural)]
pub enum Subtype {
    AssociationRequest,
    AssociationResponse,
    ReassociationRequest,
    ReassociationResponse,
    ProbeRequest,
    ProbeResponse,
    TimingAdvertisement,
    Reserved1,
    Beacon,
    ATIM,
    Disassociation,
    Authentication,
    Deauthentication,
    Action,
    NACK,
    Reserved2,
    Reserved3,
    Trigger,
    BeamformingReportPoll,
    VHT_OR_HE_NDP_Announcement,
    ControlFrameExtension,
    ControlWrapper,
    BAR,
    BA,
    PSPoll,
    RequestToSend,
    ClearToSend,
    ACK,
    CFEnd,
    CFEnd_And_CFAck,
    Data,
    Data_And_CFAck,
    Data_And_CFPoll,
    Data_And_CFAck_And_CFPoll,
    Null,
    CFAck_NoData,
    CFPoll_NoData,
    CFAck_And_CFPoll_NoData,
    QoSData,
    QoSData_And_CFAck,
    QoSData_And_CFPoll,
    QoSData_And_CFAck_And_CFPoll,
    QoSNull,
    Reserved4,
    QoS_CFPoll,
    QoS_CFAck_And_CFPoll,
    DMGBeacon,
    Reserved5,
    Unknown,
}

impl Subtype {
    /// The subtype a 4-bit value names under frame type `typ`.
    pub open spec fn spec_from_type(typ: Type, v: u8) -> Subtype {
        match typ {
            Type::Management => match v {
                0 => Subtype::AssociationRequest,
                1 => Subtype::AssociationResponse,
                2 => Subtype::ReassociationRequest,
                3 => Subtype::ReassociationResponse,
                4 => Subtype::ProbeRequest,
                5 => Subtype::ProbeResponse,
                6 => Subtype::TimingAdvertisement,
                7 => Subtype::Reserved1,
                8 => Subtype::Beacon,
                9 => Subtype::ATIM,
                10 => Subtype::Disassociation,
                11 => Subtype::Authentication,
                12 => Subtype::Deauthentication,
                13 => Subtype::Action,
                14 => Subtype::NACK,
                _ => Subtype::Reserved2,
            },
            Type::Control => match v {
                0 | 1 => Subtype::Reserved3,
                2 => Subtype::Trigger,
                4 => Subtype::BeamformingReportPoll,
                5 => Subtype::VHT_OR_HE_NDP_Announcement,
                6 => Subtype::ControlFrameExtension,
                7 => Subtype::ControlWrapper,
                8 => Subtype::BAR,
                9 => Subtype::BA,
                10 => Subtype::PSPoll,
                11 => Subtype::RequestToSend,
                12 => Subtype::ClearToSend,
                13 => Subtype::ACK,
                14 => Subtype::CFEnd,
                15 => Subtype::CFEnd_And_CFAck,
                _ => Subtype::Unknown,
            },
            Type::Data => match v {
                0 => Subtype::Data,
                1 => Subtype::Data_And_CFAck,
                2 => Subtype::Data_And_CFPoll,
                3 => Subtype::Data_And_CFAck_And_CFPoll,
                4 => Subtype::Null,
                5 => Subtype::CFAck_NoData,
                6 => Subtype::CFPoll_NoData,
                7 => Subtype::CFAck_And_CFPoll_NoData,
                8 => Subtype::QoSData,
                9 => Subtype::QoSData_And_CFAck,
                10 => Subtype::QoSData_And_CFPoll,
                11 => Subtype::QoSData_And_CFAck_And_CFPoll,
                12 => Subtype::QoSNull,
                13 => Subtype::Reserved4,
                14 => Subtype::QoS_CFPoll,
                _ => Subtype::QoS_CFAck_And_CFPoll,
            },
            Type::Extension => if v == 0 {
                Subtype::DMGBeacon
            } else {
                Subtype::Reserved5
            },
        }
    }

    /// The subtype the 4-bit value `i` names under frame type `typ`.
    pub fn from_type(typ: Type, i: U4) -> (r: Subtype)
        ensures
            r == Self::spec_from_type(typ, i@ as u8),
    {
        let v = i.value();
        match typ {
            Type::Management => match v {
                0 => Subtype::AssociationRequest,
                1 => Subtype::AssociationResponse,
                2 => Subtype::ReassociationRequest,
                3 => Subtype::ReassociationResponse,
                4 => Subtype::ProbeRequest,
                5 => Subtype::ProbeResponse,
                6 => Subtype::TimingAdvertisement,
                7 => Subtype::Reserved1,
                8 => Subtype::Beacon,
                9 => Subtype::ATIM,
                10 => Subtype::Disassociation,
                11 => Subtype::Authentication,
                12 => Subtype::Deauthentication,
                13 => Subtype::Action,
                14 => Subtype::NACK,
                _ => Subtype::Reserved2,
            },
            Type::Control => match v {
                0 | 1 => Subtype::Reserved3,
                2 => Subtype::Trigger,
                4 => Subtype::BeamformingReportPoll,
                5 => Subtype::VHT_OR_HE_NDP_Announcement,
                6 => Subtype::ControlFrameExtension,
                7 => Subtype::ControlWrapper,
                8 => Subtype::BAR,
                9 => Subtype::BA,
                10 => Subtype::PSPoll,
                11 => Subtype::RequestToSend,
                12 => Subtype::ClearToSend,
                13 => Subtype::ACK,
                14 => Subtype::CFEnd,
                15 => Subtype::CFEnd_And_CFAck,
                _ => Subtype::Unknown,
            },
            Type::Data => match v {
                0 => Subtype::Data,
                1 => Subtype::Data_And_CFAck,
                2 => Subtype::Data_And_CFPoll,
                3 => Subtype::Data_And_CFAck_And_CFPoll,
                4 => Subtype::Null,
                5 => Subtype::CFAck_NoData,
                6 => Subtype::CFPoll_NoData,
                7 => Subtype::CFAck_And_CFPoll_NoData,
                8 => Subtype::QoSData,
                9 => Subtype::QoSData_And_CFAck,
                10 => Subtype::QoSData_And_CFPoll,
                11 => Subtype::QoSData_And_CFAck_And_CFPoll,
                12 => Subtype::QoSNull,
                13 => Subtype::Reserved4,
                14 => Subtype::QoS_CFPoll,
                _ => Subtype::QoS_CFAck_And_CFPoll,
            },
            Type::Extension => if v == 0 {
                Subtype::DMGBeacon
            } else {
                Subtype::Reserved5
            },
        }
    }
}

/// The flag bits of frame control.
#[derive(Debug, Clone, Copy)]
pub struct ControlFlags {
    pub to_ds: U1,
    pub from_ds: U1,
    pub more_fragments: U1,
    pub retry: U1,
    pub power_mgmt: U1,
    pub more_data: U1,
    pub protected: U1,
    pub order: U1,
}

/// The bit `off` bits into the byte at `p`, as a one-bit value.
fn flag(b: &[u8], p: usize, off: usize) -> (r: U1)
    requires
        off < 8,
        p < b@.len(),
    ensures
        r@ == bits_value(b@, p * 8 + off, 1),
{
    proof {
        lemma2_to64();
    }
    U1::new(get_bits(b, p, off, 1) as u8)
}

impl ControlFlags {
    /// `f` is the flag byte at `pos`: MSB-first, order, protected, more
    /// data, power management, retry, more fragments, from DS, to DS.
    pub open spec fn decoded(b: Seq<u8>, pos: int, f: ControlFlags) -> bool {
        let k = pos * 8;
        &&& f.order@ == bits_value(b, k, 1)
        &&& f.protected@ == bits_value(b, k + 1, 1)
        &&& f.more_data@ == bits_value(b, k + 2, 1)
        &&& f.power_mgmt@ == bits_value(b, k + 3, 1)
        &&& f.retry@ == bits_value(b, k + 4, 1)
        &&& f.more_fragments@ == bits_value(b, k + 5, 1)
        &&& f.from_ds@ == bits_value(b, k + 6, 1)
        &&& f.to_ds@ == bits_value(b, k + 7, 1)
    }

    /// The flag byte at `pos`.
    pub fn parse(b: &[u8], pos: usize) -> (r: Result<(usize, ControlFlags), Error>)
        requires
            pos <= b@.len(),
        ensures
            r is Ok <==> has(b@, pos as int, 1),
            r matches Ok((q, f)) ==> q == pos + 1 && Self::decoded(b@, pos as int, f),
            r matches Err(e) ==> ends_in(e, pos as int, Label::FrameControl),
    {
        if pos >= b.len() {
            return Err(Error::new(pos, ErrorKind::NeedMore).context(pos, Label::FrameControl));
        }
        let f = ControlFlags {
            order: flag(b, pos, 0),
            protected: flag(b, pos, 1),
            more_data: flag(b, pos, 2),
            power_mgmt: flag(b, pos, 3),
            retry: flag(b, pos, 4),
            more_fragments: flag(b, pos, 5),
            from_ds: flag(b, pos, 6),
            to_ds: flag(b, pos, 7),
        };
        Ok((pos + 1, f))
    }
}

/// The two frame-control bytes.
#[derive(Debug, Clone, Copy)]
pub struct FrameControl {
    pub version: U2,
    pub typ: Type,
    pub subtype: Subtype,
    pub flags: ControlFlags,
}

impl FrameControl {
    /// The frame type named at `pos`.
    pub open spec fn spec_type(b: Seq<u8>, pos: int) -> Type {
        Type::spec_from(bits_value(b, pos * 8 + 4, 2))
    }

    /// The subtype named at `pos`.
    pub open spec fn spec_subtype(b: Seq<u8>, pos: int) -> Subtype {
        Subtype::spec_from_type(Self::spec_type(b, pos), bits_value(b, pos * 8, 4) as u8)
    }

    /// `fc` is the frame control at `pos`: the first byte holds, MSB-first,
    /// the subtype, the type and the version; the second the flags.
    pub open spec fn decoded(b: Seq<u8>, pos: int, fc: FrameControl) -> bool {
        &&& fc.version@ == bits_value(b, pos * 8 + 6, 2)
        &&& fc.typ == Self::spec_type(b, pos)
        &&& fc.subtype == Self::spec_subtype(b, pos)
        &&& ControlFlags::decoded(b, pos + 1, fc.flags)
    }

    /// The two bytes at `pos`.
    pub fn parse(b: &[u8], pos: usize) -> (r: Result<(usize, FrameControl), Error>)
        requires
            pos <= b@.len(),
        ensures
            r is Ok <==> has(b@, pos as int, 2),
            r matches Ok((q, fc)) ==> q == pos + 2 && Self::decoded(b@, pos as int, fc),
            r matches Err(e) ==> ends_in(e, pos as int, Label::FrameControl),
    {
        if b.len() - pos < 2 {
            return Err(Error::new(pos, ErrorKind::NeedMore).context(pos, Label::FrameControl));
        }
        proof {
            lemma2_to64();
        }
        let sub = U4::new(get_bits(b, pos, 0, 4) as u8);
        let typ = Type::from(U2::new(get_bits(b, pos, 4, 2) as u8));
        let version = U2::new(get_bits(b, pos, 6, 2) as u8);
        let (q, flags) = ControlFlags::parse(b, pos + 1)?;
        let subtype = Subtype::from_type(typ, sub);
        Ok((q, FrameControl { version, typ, subtype, flags }))
    }
}

/// Sequence control: a little-endian 16-bit value whose 4 low bits are the
/// fragment number and 12 high bits the sequence number.
#[derive(Debug, Clone, Copy)]
pub struct SeqControl {
    pub frag_num: U4,
    pub seq_num: U12,
}

impl SeqControl {
    pub open spec fn decoded(b: Seq<u8>, pos: int, s: SeqControl) -> bool {
        &&& s.frag_num@ == le16(b, pos) % 16
        &&& s.seq_num@ == le16(b, pos) / 16
    }

    /// The two bytes at `pos`.
    pub fn parse(b: &[u8], pos: usize) -> (r: Result<(usize, SeqControl), Error>)
        requires
            pos <= b@.len(),
        ensures
            r is Ok <==> has(b@, pos as int, 2),
            r matches Ok((q, s)) ==> q == pos + 2 && Self::decoded(b@, pos as int, s),
            r matches Err(e) ==> ends_in(e, pos as int, Label::SequenceControl),
    {
        match le_u16(b, pos) {
            Ok((q, v)) => {
                let s = SeqControl { frag_num: U4::new((v % 16) as u8), seq_num: U12::new(v / 16) };
                Ok((q, s))
            },
            Err(e) => Err(e.context(pos, Label::SequenceControl)),
        }
    }
}

/// `d` holds the six bytes at `p`.
pub open spec fn addr_at(d: Dot11Addr, b: Seq<u8>, p: int) -> bool {
    d.spec_addr().0@ == b.subrange(p, p + 6)
}

/// `d` is present and holds the six bytes at `p`.
pub open spec fn some_addr_at(d: Option<Dot11Addr>, b: Seq<u8>, p: int) -> bool {
    d matches Some(x) && addr_at(x, b, p)
}

/// The addresses and sequence control of a MAC header, in wire order.
pub type Addresses = (
    Dot11Addr,
    Option<Dot11Addr>,
    Option<Dot11Addr>,
    Option<SeqControl>,
    Option<Dot11Addr>,
);

/// The body of a frame, chosen by the frame type and subtype.
#[derive(Debug)]
pub enum FrameBody {
    Data(DataFrameBody),
    Beacon(BeaconFrameBody),
    ProbeRequest(ProbeRequestFrameBody),
    ProbeResponse(ProbeResponseFrameBody),
    Deauthentication(DeauthenticationFrameBody),
    Disassociation(DeauthenticationFrameBody),
    Authentication(AuthenticationFrameBody),
    AssociationRequest(AssociationRequestFrameBody),
    ReassociationRequest(ReassociationRequestFrameBody),
    AssociationResponse(AssociationResponseFrameBody),
    ReassociationResponse(AssociationResponseFrameBody),
    Encrypted(Blob),
    Empty,
    Malformed,
}

/// The data subtypes that carry a body.
pub open spec fn carries_data(s: Subtype) -> bool {
    match s {
        Subtype::Data | Subtype::Data_And_CFAck | Subtype::Data_And_CFPoll
        | Subtype::Data_And_CFAck_And_CFPoll | Subtype::QoSData | Subtype::QoSData_And_CFAck
        | Subtype::QoSData_And_CFPoll | Subtype::QoSData_And_CFAck_And_CFPoll => true,
        _ => false,
    }
}

/// Decoding the management body of subtype `sub` at `pos` succeeds; `b`
/// ends with the frame's FCS, and bodies other than the Beacon-like ones
/// see the input up to it.
pub open spec fn management_ok(b: Seq<u8>, pos: int, sub: Subtype) -> bool {
    let r = FrameBody::region(b, pos);
    match sub {
        Subtype::Beacon => BeaconFrameBody::ok(b, pos),
        Subtype::ProbeRequest => ProbeRequestFrameBody::ok(r, pos),
        Subtype::ProbeResponse => ProbeResponseFrameBody::ok(b, pos),
        Subtype::Deauthentication => DeauthenticationFrameBody::ok(r, pos),
        Subtype::Disassociation => DeauthenticationFrameBody::ok(r, pos),
        Subtype::Authentication => AuthenticationFrameBody::ok(r, pos),
        Subtype::AssociationRequest => AssociationRequestFrameBody::ok(r, pos),
        Subtype::ReassociationRequest => ReassociationRequestFrameBody::ok(r, pos),
        Subtype::AssociationResponse => AssociationResponseFrameBody::ok(r, pos),
        Subtype::ReassociationResponse => AssociationResponseFrameBody::ok(r, pos),
        _ => true,
    }
}

/// `x` is the management body of subtype `sub` at `pos`: the arm is the one
/// the subtype selects, and a subtype without a body decoder gives `Empty`.
pub open spec fn management_decoded(b: Seq<u8>, pos: int, sub: Subtype, x: FrameBody) -> bool {
    let r = FrameBody::region(b, pos);
    match sub {
        Subtype::Beacon => x matches FrameBody::Beacon(y) && BeaconFrameBody::decoded(b, pos, y),
        Subtype::ProbeRequest => x matches FrameBody::ProbeRequest(y)
            && ProbeRequestFrameBody::decoded(r, pos, ProbeRequestFrameBody::end(r, pos), y),
        Subtype::ProbeResponse => x matches FrameBody::ProbeResponse(y)
            && ProbeResponseFrameBody::decoded(b, pos, y),
        Subtype::Deauthentication => x matches FrameBody::Deauthentication(y)
            && DeauthenticationFrameBody::decoded(r, pos, pos + 2, y),
        Subtype::Disassociation => x matches FrameBody::Disassociation(y)
            && DeauthenticationFrameBody::decoded(r, pos, pos + 2, y),
        Subtype::Authentication => x matches FrameBody::Authentication(y)
            && AuthenticationFrameBody::decoded(r, pos, AuthenticationFrameBody::end(r, pos), y),
        Subtype::AssociationRequest => x matches FrameBody::AssociationRequest(y)
            && AssociationRequestFrameBody::decoded(
            r,
            pos,
            AssociationRequestFrameBody::end(r, pos),
            y,
        ),
        Subtype::ReassociationRequest => x matches FrameBody::ReassociationRequest(y)
            && ReassociationRequestFrameBody::decoded(
            r,
            pos,
            ReassociationRequestFrameBody::end(r, pos),
            y,
        ),
        Subtype::AssociationResponse => x matches FrameBody::AssociationResponse(y)
            && AssociationResponseFrameBody::decoded(
            r,
            pos,
            AssociationResponseFrameBody::end(r, pos),
            y,
        ),
        Subtype::ReassociationResponse => x matches FrameBody::ReassociationResponse(y)
            && AssociationResponseFrameBody::decoded(
            r,
            pos,
            AssociationResponseFrameBody::end(r, pos),
            y,
        ),
        _ => x is Empty,
    }
}

impl FrameBody {
    /// Where the body that starts at `pos` ends: four bytes before the end
    /// of the input, which hold the FCS, or at `pos` where fewer are left.
    pub open spec fn limit(b: Seq<u8>, pos: int) -> int {
        if b.len() - pos >= 4 {
            b.len() - 4
        } else {
            pos
        }
    }

    /// The bytes the management bodies of fixed layout see: the input up to
    /// the body's limit.
    pub open spec fn region(b: Seq<u8>, pos: int) -> Seq<u8> {
        b.subrange(0, Self::limit(b, pos))
    }

    /// Decoding the body at `pos` succeeds: only management bodies can fail.
    pub open spec fn ok(b: Seq<u8>, pos: int, typ: Type, sub: Subtype, protected: bool) -> bool {
        protected || typ != Type::Management || management_ok(b, pos, sub)
    }

    /// `x` is the body at `pos`: a protected body is opaque bytes up to the
    /// FCS (or `Empty` where no FCS fits), every other the arm its type and
    /// subtype select.
    pub open spec fn decoded(
        b: Seq<u8>,
        pos: int,
        typ: Type,
        sub: Subtype,
        protected: bool,
        x: FrameBody,
    ) -> bool {
        if protected {
            if b.len() - pos >= 4 {
                x matches FrameBody::Encrypted(e) && e@ == b.subrange(pos, b.len() - 4)
            } else {
                x is Empty
            }
        } else {
            match typ {
                Type::Data => if carries_data(sub) {
                    x matches FrameBody::Data(d) && DataFrameBody::decoded(b, pos, d)
                } else {
                    x is Empty
                },
                Type::Management => management_decoded(b, pos, sub, x),
                _ => x is Empty,
            }
        }
    }

    fn management(b: &[u8], pos: usize, sub: Subtype) -> (res: Result<FrameBody, Error>)
        requires
            pos <= b@.len(),
        ensures
            res is Ok <==> management_ok(b@, pos as int, sub),
            res matches Ok(x) ==> management_decoded(b@, pos as int, sub, x),
    {
        let lim = if b.len() - pos >= 4 { b.len() - 4 } else { pos };
        let r = vstd::slice::slice_subrange(b, 0, lim);
        match sub {
            Subtype::Beacon => {
                let (_, y) = BeaconFrameBody::parse(b, pos)?;
                Ok(FrameBody::Beacon(y))
            },
            Subtype::ProbeRequest => {
                let (_, y) = ProbeRequestFrameBody::parse(r, pos)?;
                Ok(FrameBody::ProbeRequest(y))
            },
            Subtype::ProbeResponse => {
                let (_, y) = ProbeResponseFrameBody::parse(b, pos)?;
                Ok(FrameBody::ProbeResponse(y))
            },
            Subtype::Deauthentication => {
                let (_, y) = DeauthenticationFrameBody::parse(r, pos, Label::DeauthenticationBody)?;
                Ok(FrameBody::Deauthentication(y))
            },
            Subtype::Disassociation => {
                let (_, y) = DeauthenticationFrameBody::parse(r, pos, Label::DisassociationBody)?;
                Ok(FrameBody::Disassociation(y))
            },
            Subtype::Authentication => {
                let (_, y) = AuthenticationFrameBody::parse(r, pos)?;
                Ok(FrameBody::Authentication(y))
            },
            Subtype::AssociationRequest => {
                let (_, y) = AssociationRequestFrameBody::parse(r, pos)?;
                Ok(FrameBody::AssociationRequest(y))
            },
            Subtype::ReassociationRequest => {
                let (_, y) = ReassociationRequestFrameBody::parse(r, pos)?;
                Ok(FrameBody::ReassociationRequest(y))
            },
            Subtype::AssociationResponse => {
                let (_, y) = AssociationResponseFrameBody::parse(r, pos)?;
                Ok(FrameBody::AssociationResponse(y))
            },
            Subtype::ReassociationResponse => {
                let (_, y) = AssociationResponseFrameBody::parse(r, pos)?;
                Ok(FrameBody::ReassociationResponse(y))
            },
            _ => Ok(FrameBody::Empty),
        }
    }

    /// The body at `pos` of a frame whose control is `fc`; `b` runs to the
    /// end of the frame, FCS included.
    pub fn parse(fc: &FrameControl, b: &[u8], pos: usize) -> (r: Result<FrameBody, Error>)
        requires
            pos <= b@.len(),
        ensures
            r is Ok <==> Self::ok(b@, pos as int, fc.typ, fc.subtype, fc.flags.protected@ == 1),
            r matches Ok(x) ==> Self::decoded(
                b@,
                pos as int,
                fc.typ,
                fc.subtype,
                fc.flags.protected@ == 1,
                x,
            ),
    {
        let lim = if b.len() - pos >= 4 { b.len() - 4 } else { pos };
        if fc.flags.protected.value() == 1 {
            if b.len() - pos >= 4 {
                return Ok(FrameBody::Encrypted(Blob::new(vstd::slice::slice_subrange(b, pos, lim))));
            } else {
                return Ok(FrameBody::Empty);
            }
        }
        match fc.typ {
            Type::Data => {
                if fc.subtype == Subtype::Data || fc.subtype == Subtype::Data_And_CFAck || fc.subtype
                    == Subtype::Data_And_CFPoll || fc.subtype == Subtype::Data_And_CFAck_And_CFPoll
                    || fc.subtype == Subtype::QoSData || fc.subtype == Subtype::QoSData_And_CFAck
                    || fc.subtype == Subtype::QoSData_And_CFPoll || fc.subtype
                    == Subtype::QoSData_And_CFAck_And_CFPoll {
                    let (_, d) = DataFrameBody::parse(b, pos);
                    Ok(FrameBody::Data(d))
                } else {
                    Ok(FrameBody::Empty)
                }
            },
            Type::Management => Self::management(b, pos, fc.subtype),
            _ => Ok(FrameBody::Empty),
        }
    }
}

/// An 802.11 MAC frame. The LLC/SNAP header of a data frame stays inside
/// its body; a protected body is never interpreted.
#[derive(Debug)]
pub struct Frame {
    pub fc: FrameControl,
    pub duration: u16,
    pub addr1: Dot11Addr,
    pub addr2: Option<Dot11Addr>,
    pub addr3: Option<Dot11Addr>,
    pub seq_control: Option<SeqControl>,
    pub addr4: Option<Dot11Addr>,
    pub frame_body: FrameBody,
    pub fcs: u32,
}

impl Frame {
    /// How many bytes of addresses and sequence control the header holds
    /// after frame control and duration.
    pub open spec fn addrs_len(typ: Type, sub: Subtype, to_ds: nat, from_ds: nat) -> int {
        match typ {
            Type::Data => if to_ds == 1 && from_ds == 1 { 26 } else { 20 },
            Type::Control => if sub == Subtype::RequestToSend || sub == Subtype::PSPoll { 12 } else { 6 },
            Type::Management => 20,
            Type::Extension => 6,
        }
    }

    /// `a` are the addresses at `pos`, tagged as the frame type, subtype and
    /// direction bits select.
    pub open spec fn addrs_decoded(
        b: Seq<u8>,
        pos: int,
        typ: Type,
        sub: Subtype,
        to_ds: nat,
        from_ds: nat,
        a: Addresses,
    ) -> bool {
        match typ {
            Type::Data => {
                &&& addr_at(a.0, b, pos)
                &&& some_addr_at(a.1, b, pos + 6)
                &&& some_addr_at(a.2, b, pos + 12)
                &&& a.3 matches Some(s) && SeqControl::decoded(b, pos + 18, s)
                &&& if to_ds == 0 && from_ds == 0 {
                    a.0 is DestinationAddress && (a.1 matches Some(Dot11Addr::SourceAddress(_)))
                        && (a.2 matches Some(Dot11Addr::BSSID(_))) && a.4 is None
                } else if to_ds == 1 && from_ds == 0 {
                    a.0 is BSSID && (a.1 matches Some(Dot11Addr::SourceAddress(_))) && (a.2 matches Some(Dot11Addr::DestinationAddress(_))) && a.4 is None
                } else if to_ds == 0 && from_ds == 1 {
                    a.0 is DestinationAddress && (a.1 matches Some(Dot11Addr::BSSID(_)))
                        && (a.2 matches Some(Dot11Addr::SourceAddress(_))) && a.4 is None
                } else {
                    a.0 is ReceiverAddress && (a.1 matches Some(Dot11Addr::TransmitterAddress(_)))
                        && (a.2 matches Some(Dot11Addr::DestinationAddress(_))) && (a.4 matches Some(Dot11Addr::SourceAddress(_))) && some_addr_at(a.4, b, pos + 20)
                }
            },
            Type::Control => {
                &&& addr_at(a.0, b, pos)
                &&& a.2 is None && a.3 is None && a.4 is None
                &&& if sub == Subtype::RequestToSend {
                    a.0 is ReceiverAddress && (a.1 matches Some(Dot11Addr::TransmitterAddress(_)))
                        && some_addr_at(a.1, b, pos + 6)
                } else if sub == Subtype::PSPoll {
                    a.0 is BSSID && (a.1 matches Some(Dot11Addr::TransmitterAddress(_)))
                        && some_addr_at(a.1, b, pos + 6)
                } else {
                    a.0 is ReceiverAddress && a.1 is None
                }
            },
            Type::Management => {
                &&& a.0 is DestinationAddress && addr_at(a.0, b, pos)
                &&& (a.1 matches Some(Dot11Addr::SourceAddress(_))) && some_addr_at(a.1, b, pos + 6)
                &&& (a.2 matches Some(Dot11Addr::BSSID(_))) && some_addr_at(a.2, b, pos + 12)
                &&& a.3 matches Some(s) && SeqControl::decoded(b, pos + 18, s)
                &&& a.4 is None
            },
            Type::Extension => {
                &&& a.0 is ReceiverAddress && addr_at(a.0, b, pos)
                &&& a.1 is None && a.2 is None && a.3 is None && a.4 is None
            },
        }
    }

    /// The addresses at `pos` of a frame whose control is `fc`.
    pub fn parse_addr(b: &[u8], pos: usize, fc: &FrameControl) -> (r: Result<(usize, Addresses), Error>)
        requires
            pos <= b@.len(),
        ensures
            r is Ok <==> has(
                b@,
                pos as int,
                Self::addrs_len(fc.typ, fc.subtype, fc.flags.to_ds@, fc.flags.from_ds@),
            ),
            r matches Ok((q, a)) ==> q == pos + Self::addrs_len(
                fc.typ,
                fc.subtype,
                fc.flags.to_ds@,
                fc.flags.from_ds@,
            ) && Self::addrs_decoded(
                b@,
                pos as int,
                fc.typ,
                fc.subtype,
                fc.flags.to_ds@,
                fc.flags.from_ds@,
                a,
            ),
    {
        let to_ds = fc.flags.to_ds.value();
        let from_ds = fc.flags.from_ds.value();
        match fc.typ {
            Type::Data => {
                let need: usize = if to_ds == 1 && from_ds == 1 { 26 } else { 20 };
                if b.len() - pos < need {
                    return Err(Error::new(pos, ErrorKind::NeedMore));
                }
                let (i, addr1) = Addr::parse(b, pos)?;
                let (i, addr2) = Addr::parse(b, i)?;
                let (i, addr3) = Addr::parse(b, i)?;
                let (i, seq_control) = SeqControl::parse(b, i)?;
                if to_ds == 0 && from_ds == 0 {
                    Ok(
                        (
                            i,
                            (
                                Dot11Addr::DestinationAddress(addr1),
                                Some(Dot11Addr::SourceAddress(addr2)),
                                Some(Dot11Addr::BSSID(addr3)),
                                Some(seq_control),
                                None,
                            ),
                        ),
                    )
                } else if to_ds == 1 && from_ds == 0 {
                    Ok(
                        (
                            i,
                            (
                                Dot11Addr::BSSID(addr1),
                                Some(Dot11Addr::SourceAddress(addr2)),
                                Some(Dot11Addr::DestinationAddress(addr3)),
                                Some(seq_control),
                                None,
                            ),
                        ),
                    )
                } else if to_ds == 0 && from_ds == 1 {
                    Ok(
                        (
                            i,
                            (
                                Dot11Addr::DestinationAddress(addr1),
                                Some(Dot11Addr::BSSID(addr2)),
                                Some(Dot11Addr::SourceAddress(addr3)),
                                Some(seq_control),
                                None,
                            ),
                        ),
                    )
                } else {
                    let (i, addr4) = Addr::parse(b, i)?;
                    Ok(
                        (
                            i,
                            (
                                Dot11Addr::ReceiverAddress(addr1),
                                Some(Dot11Addr::TransmitterAddress(addr2)),
                                Some(Dot11Addr::DestinationAddress(addr3)),
                                Some(seq_control),
                                Some(Dot11Addr::SourceAddress(addr4)),
                            ),
                        ),
                    )
                }
            },
            Type::Control => {
                if fc.subtype == Subtype::RequestToSend || fc.subtype == Subtype::PSPoll {
                    if b.len() - pos < 12 {
                        return Err(Error::new(pos, ErrorKind::NeedMore));
                    }
                    let (i, addr1) = Addr::parse(b, pos)?;
                    let (i, addr2) = Addr::parse(b, i)?;
                    let first = if fc.subtype == Subtype::RequestToSend {
                        Dot11Addr::ReceiverAddress(addr1)
                    } else {
                        Dot11Addr::BSSID(addr1)
                    };
                    Ok((i, (first, Some(Dot11Addr::TransmitterAddress(addr2)), None, None, None)))
                } else {
                    let (i, addr1) = Addr::parse(b, pos)?;
                    Ok((i, (Dot11Addr::ReceiverAddress(addr1), None, None, None, None)))
                }
            },
            Type::Management => {
                if b.len() - pos < 20 {
                    return Err(Error::new(pos, ErrorKind::NeedMore));
                }
                let (i, addr1) = Addr::parse(b, pos)?;
                let (i, addr2) = Addr::parse(b, i)?;
                let (i, addr3) = Addr::parse(b, i)?;
                let (i, seq_control) = SeqControl::parse(b, i)?;
                Ok(
                    (
                        i,
                        (
                            Dot11Addr::DestinationAddress(addr1),
                            Some(Dot11Addr::SourceAddress(addr2)),
                            Some(Dot11Addr::BSSID(addr3)),
                            Some(seq_control),
                            None,
                        ),
                    ),
                )
            },
            Type::Extension => {
                let (i, addr1) = Addr::parse(b, pos)?;
                Ok((i, (Dot11Addr::ReceiverAddress(addr1), None, None, None, None)))
            },
        }
    }

    /// The direction and protection bits named at `pos`.
    pub open spec fn spec_to_ds(b: Seq<u8>, pos: int) -> nat {
        bits_value(b, pos * 8 + 15, 1)
    }

    pub open spec fn spec_from_ds(b: Seq<u8>, pos: int) -> nat {
        bits_value(b, pos * 8 + 14, 1)
    }

    pub open spec fn spec_protected(b: Seq<u8>, pos: int) -> bool {
        bits_value(b, pos * 8 + 9, 1) == 1
    }

    /// Where the body of the frame at `pos` starts.
    pub open spec fn body_start(b: Seq<u8>, pos: int) -> int {
        pos + 4 + Self::addrs_len(
            FrameControl::spec_type(b, pos),
            FrameControl::spec_subtype(b, pos),
            Self::spec_to_ds(b, pos),
            Self::spec_from_ds(b, pos),
        )
    }

    /// Decoding at `pos` succeeds exactly when frame control, duration and
    /// the addresses are there, the body decodes, and four bytes are left
    /// after the body's start for the FCS.
    pub open spec fn ok(b: Seq<u8>, pos: int) -> bool {
        let s = Self::body_start(b, pos);
        &&& has(b, pos, 4)
        &&& has(b, s, 4)
        &&& FrameBody::ok(
            b,
            s,
            FrameControl::spec_type(b, pos),
            FrameControl::spec_subtype(b, pos),
            Self::spec_protected(b, pos),
        )
    }

    /// `f` is the frame at `pos`; it runs to the end of the input, whose last
    /// four bytes are the FCS.
    pub open spec fn decoded(b: Seq<u8>, pos: int, end: int, f: Frame) -> bool {
        let s = pos + 4 + Self::addrs_len(f.fc.typ, f.fc.subtype, f.fc.flags.to_ds@, f.fc.flags.from_ds@);
        &&& FrameControl::decoded(b, pos, f.fc)
        &&& f.duration == le16(b, pos + 2)
        &&& Self::addrs_decoded(
            b,
            pos + 4,
            f.fc.typ,
            f.fc.subtype,
            f.fc.flags.to_ds@,
            f.fc.flags.from_ds@,
            (f.addr1, f.addr2, f.addr3, f.seq_control, f.addr4),
        )
        &&& FrameBody::decoded(b, s, f.fc.typ, f.fc.subtype, f.fc.flags.protected@ == 1, f.frame_body)
        &&& f.fcs == le32(b, b.len() - 4)
        &&& end == b.len()
    }

    fn fields(b: &[u8], pos: usize) -> (r: Result<(usize, Frame), Error>)
        requires
            pos <= b@.len(),
        ensures
            r is Ok <==> Self::ok(b@, pos as int),
            r matches Ok((q, f)) ==> Self::decoded(b@, pos as int, q as int, f),
    {
        if b.len() - pos < 4 {
            return Err(Error::new(pos, ErrorKind::NeedMore));
        }
        let (i, fc) = FrameControl::parse(b, pos)?;
        let (i, duration) = le_u16(b, i)?;
        let (i, (addr1, addr2, addr3, seq_control, addr4)) = Self::parse_addr(b, i, &fc)?;
        let frame_body = FrameBody::parse(&fc, b, i)?;
        if b.len() - i < 4 {
            return Err(Error::new(i, ErrorKind::NeedMore));
        }
        let (q, fcs) = le_u32(b, b.len() - 4)?;
        let f = Frame {
            fc,
            duration,
            addr1,
            addr2,
            addr3,
            seq_control,
            addr4,
            frame_body,
            fcs,
        };
        Ok((q, f))
    }

    /// The frame at `pos`; it consumes the rest of the input.
    pub fn parse_at(b: &[u8], pos: usize) -> (r: Result<(usize, Frame), Error>)
        requires
            pos <= b@.len(),
        ensures
            r is Ok <==> Self::ok(b@, pos as int),
            r matches Ok((q, f)) ==> Self::decoded(b@, pos as int, q as int, f),
            r matches Err(e) ==> ends_in(e, pos as int, Label::Dot11Frame),
    {
        match Self::fields(b, pos) {
            Ok(x) => Ok(x),
            Err(e) => Err(e.context(pos, Label::Dot11Frame)),
        }
    }

    /// The frame at the start of `i`, and what is left of `i`.
    pub fn parse(i: &[u8]) -> (r: Result<(&[u8], Frame), Error>)
        ensures
            r is Ok <==> Self::ok(i@, 0),
            r matches Ok((rest, f)) ==> is_rest(i@, rest@) && Self::decoded(
                i@,
                0,
                consumed_len(i@, rest@),
                f,
            ),
            r matches Err(e) ==> ends_in(e, 0, Label::Dot11Frame),
    {
        let (q, f) = Self::parse_at(i, 0)?;
        Ok((rest_of(i, q), f))
    }
}

/// In a decoded frame whose protected bit is set, the body is opaque: it is
/// `Encrypted` or, where no bytes are left before the FCS position, `Empty`.
pub proof fn lemma_protected_body_is_opaque(b: Seq<u8>, pos: int, end: int, f: Frame)
    requires
        Frame::decoded(b, pos, end, f),
        f.fc.flags.protected@ == 1,
    ensures
        f.frame_body is Encrypted || f.frame_body is Empty,
{
}

} // verus!
