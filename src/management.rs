//! 802.11 management frame bodies and their information elements.
//!
//! Every scalar field of a management body is little-endian. An information
//! element is an id byte, a length byte and `len` bytes whose shape the id
//! selects; an element always consumes exactly its `len` bytes, and one whose
//! shape needs more bytes than `len` fails.
use vstd::prelude::*;
use vstd::arithmetic::power2::lemma2_to64;
use crate::datalink::Addr;
use crate::parse::{
    Error, ErrorKind, Label, bits_value, consumed_len, ends_in, get_bits, get_le16, has, is_rest,
    le16, le64, le_u16, le_u64, rest_of, take,
};
use crate::text::{decode_text, text_or};
use crate::ux::{U1, U7};

verus! {

/// Why a station was deauthenticated or disassociated.
#[derive(Debug, Clone, Copy, PartialEq, Eq, Structural)]
pub enum ReasonCode {
    Reserved1,
    Unspecified,
    Invalid1,
    OutOfRange1,
    Inactive,
    InsufficientResources,
    IncorrectFrameType1,
    OutOfRange2,
    UnacceptableValue1,
    UnacceptableValue2,
    Reserved2,
    Invalid2,
    MessageIntegrityCheckFailed,
    HandshakeTimeout1,
    HandshakeTimeout2,
    HandshakeTimeout3,
    Invalid3,
    Invalid4,
    Invalid5,
    Unsupported,
    Invalid6,
    AuthenticationFailure,
    Rejected,
    Reserved3,
}

impl ReasonCode {
    /// The reason code a number names, if any.
    pub open spec fn spec_from_u16(v: u16) -> Option<ReasonCode> {
        match v {
            0 => Some(ReasonCode::Reserved1),
            1 => Some(ReasonCode::Unspecified),
            2 => Some(ReasonCode::Invalid1),
            3 => Some(ReasonCode::OutOfRange1),
            4 => Some(ReasonCode::Inactive),
            5 => Some(ReasonCode::InsufficientResources),
            6 => Some(ReasonCode::IncorrectFrameType1),
            7 => Some(ReasonCode::OutOfRange2),
            8 => Some(ReasonCode::UnacceptableValue1),
            9 => Some(ReasonCode::UnacceptableValue2),
            10 => Some(ReasonCode::Reserved2),
            11 => Some(ReasonCode::Invalid2),
            12 => Some(ReasonCode::MessageIntegrityCheckFailed),
            13 => Some(ReasonCode::HandshakeTimeout1),
            14 => Some(ReasonCode::HandshakeTimeout2),
            15 => Some(ReasonCode::HandshakeTimeout3),
            16 => Some(ReasonCode::Invalid3),
            17 => Some(ReasonCode::Invalid4),
            18 => Some(ReasonCode::Invalid5),
            19 => Some(ReasonCode::Unsupported),
            20 => Some(ReasonCode::Invalid6),
            21 => Some(ReasonCode::AuthenticationFailure),
            22 => Some(ReasonCode::Rejected),
            23 => Some(ReasonCode::Reserved3),
            _ => None,
        }
    }

    pub fn from_u16(v: u16) -> (r: Option<ReasonCode>)
        ensures
            r == Self::spec_from_u16(v),
    {
        match v {
            0 => Some(ReasonCode::Reserved1),
            1 => Some(ReasonCode::Unspecified),
            2 => Some(ReasonCode::Invalid1),
            3 => Some(ReasonCode::OutOfRange1),
            4 => Some(ReasonCode::Inactive),
            5 => Some(ReasonCode::InsufficientResources),
            6 => Some(ReasonCode::IncorrectFrameType1),
            7 => Some(ReasonCode::OutOfRange2),
            8 => Some(ReasonCode::UnacceptableValue1),
            9 => Some(ReasonCode::UnacceptableValue2),
            10 => Some(ReasonCode::Reserved2),
            11 => Some(ReasonCode::Invalid2),
            12 => Some(ReasonCode::MessageIntegrityCheckFailed),
            13 => Some(ReasonCode::HandshakeTimeout1),
            14 => Some(ReasonCode::HandshakeTimeout2),
            15 => Some(ReasonCode::HandshakeTimeout3),
            16 => Some(ReasonCode::Invalid3),
            17 => Some(ReasonCode::Invalid4),
            18 => Some(ReasonCode::Invalid5),
            19 => Some(ReasonCode::Unsupported),
            20 => Some(ReasonCode::Invalid6),
            21 => Some(ReasonCode::AuthenticationFailure),
            22 => Some(ReasonCode::Rejected),
            23 => Some(ReasonCode::Reserved3),
            _ => None,
        }
    }

    /// The human-readable meaning of the code.
    pub open spec fn spec_text(self) -> Seq<char> {
        match self {
            ReasonCode::Reserved1 => "Reserved; unused"@,
            ReasonCode::Unspecified => "Unspecified reason code"@,
            ReasonCode::Invalid1 => "Prior authentication is not valid"@,
            ReasonCode::OutOfRange1 => "Station has left the basic service area or extended service area and is deauthenticated"@,
            ReasonCode::Inactive => "Inactivity timer expired and station was disassociated"@,
            ReasonCode::InsufficientResources => "Disassociated due to insufficient resources at the access point"@,
            ReasonCode::IncorrectFrameType1 => "Incorrect frame type or subtype received from unauthenticated station"@,
            ReasonCode::OutOfRange2 => "Station has left the basic service area or extended service area and is disassociated"@,
            ReasonCode::UnacceptableValue1 => "Disassociated because of unacceptable values in Power Capability element"@,
            ReasonCode::UnacceptableValue2 => "Disassociated because of unacceptable values in Supported Channels element"@,
            ReasonCode::Reserved2 => "Reserved"@,
            ReasonCode::Invalid2 => "Invalid information element (added with 802.11i, and likely one of the 802.11i information elements)"@,
            ReasonCode::MessageIntegrityCheckFailed => "Message integrity check failure"@,
            ReasonCode::HandshakeTimeout1 => "4-way keying handshake timeout"@,
            ReasonCode::HandshakeTimeout2 => "Group key handshake timeout"@,
            ReasonCode::HandshakeTimeout3 => "4-way handshake information element has different security parameters from initial parameter set"@,
            ReasonCode::Invalid3 => "Invalid group cipher"@,
            ReasonCode::Invalid4 => "Invalid pairwise cipher"@,
            ReasonCode::Invalid5 => "Invalid Authentication and Key Management Protocol"@,
            ReasonCode::Unsupported => "Unsupported Robust Security Network Information Element (RSN IE) version"@,
            ReasonCode::Invalid6 => "Invalid capabilities in RSN information element"@,
            ReasonCode::AuthenticationFailure => "802.1X authentication failure"@,
            ReasonCode::Rejected => "Proposed cipher suite rejected due to configured policy"@,
            ReasonCode::Reserved3 => "Reserved; unused"@,
        }
    }

    /// The meaning of a decoded code, or that it is unknown.
    pub open spec fn spec_describe(code: Option<ReasonCode>) -> Seq<char> {
        match code {
            Some(c) => c.spec_text(),
            None => "Unknown reason code"@,
        }
    }

    /// The human-readable meaning of the code.
    pub fn text(&self) -> (r: &'static str)
        ensures
            r@ == self.spec_text(),
    {
        match self {
            ReasonCode::Reserved1 => "Reserved; unused",
            ReasonCode::Unspecified => "Unspecified reason code",
            ReasonCode::Invalid1 => "Prior authentication is not valid",
            ReasonCode::OutOfRange1 => "Station has left the basic service area or extended service area and is deauthenticated",
            ReasonCode::Inactive => "Inactivity timer expired and station was disassociated",
            ReasonCode::InsufficientResources => "Disassociated due to insufficient resources at the access point",
            ReasonCode::IncorrectFrameType1 => "Incorrect frame type or subtype received from unauthenticated station",
            ReasonCode::OutOfRange2 => "Station has left the basic service area or extended service area and is disassociated",
            ReasonCode::UnacceptableValue1 => "Disassociated because of unacceptable values in Power Capability element",
            ReasonCode::UnacceptableValue2 => "Disassociated because of unacceptable values in Supported Channels element",
            ReasonCode::Reserved2 => "Reserved",
            ReasonCode::Invalid2 => "Invalid information element (added with 802.11i, and likely one of the 802.11i information elements)",
            ReasonCode::MessageIntegrityCheckFailed => "Message integrity check failure",
            ReasonCode::HandshakeTimeout1 => "4-way keying handshake timeout",
            ReasonCode::HandshakeTimeout2 => "Group key handshake timeout",
            ReasonCode::HandshakeTimeout3 => "4-way handshake information element has different security parameters from initial parameter set",
            ReasonCode::Invalid3 => "Invalid group cipher",
            ReasonCode::Invalid4 => "Invalid pairwise cipher",
            ReasonCode::Invalid5 => "Invalid Authentication and Key Management Protocol",
            ReasonCode::Unsupported => "Unsupported Robust Security Network Information Element (RSN IE) version",
            ReasonCode::Invalid6 => "Invalid capabilities in RSN information element",
            ReasonCode::AuthenticationFailure => "802.1X authentication failure",
            ReasonCode::Rejected => "Proposed cipher suite rejected due to configured policy",
            ReasonCode::Reserved3 => "Reserved; unused",
        }
    }

    /// The meaning of a decoded code, or that it is unknown.
    pub fn describe(code: Option<ReasonCode>) -> (r: &'static str)
        ensures
            r@ == Self::spec_describe(code),
    {
        match code {
            Some(c) => c.text(),
            None => "Unknown reason code",
        }
    }
}

/// The outcome of an authentication or association request.
#[derive(Debug, Clone, Copy, PartialEq, Eq, Structural)]
pub enum StatusCode {
    Success,
    Unspecified,
    Reserved1,
    Unsupported1,
    Denied1,
    Denied2,
    Unsupported2,
    Unexpected,
    Rejected1,
    Rejected2,
    Denied3,
    Denied4,
    Denied5,
    Denied6,
    Denied7,
    Denied8,
    Denied9,
    Denied10,
    Denied11,
    Denied12,
    Reserved2,
    Invalid1,
    Invalid2,
    Invalid3,
    Invalid4,
    Unsupported3,
    Unsupported4,
    Unsupported5,
    Unsupported6,
}

impl StatusCode {
    /// The status code a number names, if any.
    pub open spec fn spec_from_u16(v: u16) -> Option<StatusCode> {
        match v {
            0 => Some(StatusCode::Success),
            1 => Some(StatusCode::Unspecified),
            2 => Some(StatusCode::Reserved1),
            10 => Some(StatusCode::Unsupported1),
            11 => Some(StatusCode::Denied1),
            12 => Some(StatusCode::Denied2),
            13 => Some(StatusCode::Unsupported2),
            14 => Some(StatusCode::Unexpected),
            15 => Some(StatusCode::Rejected1),
            16 => Some(StatusCode::Rejected2),
            17 => Some(StatusCode::Denied3),
            18 => Some(StatusCode::Denied4),
            19 => Some(StatusCode::Denied5),
            20 => Some(StatusCode::Denied6),
            21 => Some(StatusCode::Denied7),
            22 => Some(StatusCode::Denied8),
            23 => Some(StatusCode::Denied9),
            24 => Some(StatusCode::Denied10),
            25 => Some(StatusCode::Denied11),
            26 => Some(StatusCode::Denied12),
            27 => Some(StatusCode::Reserved2),
            28 => Some(StatusCode::Invalid1),
            29 => Some(StatusCode::Invalid2),
            30 => Some(StatusCode::Invalid3),
            31 => Some(StatusCode::Invalid4),
            32 => Some(StatusCode::Unsupported3),
            33 => Some(StatusCode::Unsupported4),
            34 => Some(StatusCode::Unsupported5),
            35 => Some(StatusCode::Unsupported6),
            _ => None,
        }
    }

    pub fn from_u16(v: u16) -> (r: Option<StatusCode>)
        ensures
            r == Self::spec_from_u16(v),
    {
        match v {
            0 => Some(StatusCode::Success),
            1 => Some(StatusCode::Unspecified),
            2 => Some(StatusCode::Reserved1),
            10 => Some(StatusCode::Unsupported1),
            11 => Some(StatusCode::Denied1),
            12 => Some(StatusCode::Denied2),
            13 => Some(StatusCode::Unsupported2),
            14 => Some(StatusCode::Unexpected),
            15 => Some(StatusCode::Rejected1),
            16 => Some(StatusCode::Rejected2),
            17 => Some(StatusCode::Denied3),
            18 => Some(StatusCode::Denied4),
            19 => Some(StatusCode::Denied5),
            20 => Some(StatusCode::Denied6),
            21 => Some(StatusCode::Denied7),
            22 => Some(StatusCode::Denied8),
            23 => Some(StatusCode::Denied9),
            24 => Some(StatusCode::Denied10),
            25 => Some(StatusCode::Denied11),
            26 => Some(StatusCode::Denied12),
            27 => Some(StatusCode::Reserved2),
            28 => Some(StatusCode::Invalid1),
            29 => Some(StatusCode::Invalid2),
            30 => Some(StatusCode::Invalid3),
            31 => Some(StatusCode::Invalid4),
            32 => Some(StatusCode::Unsupported3),
            33 => Some(StatusCode::Unsupported4),
            34 => Some(StatusCode::Unsupported5),
            35 => Some(StatusCode::Unsupported6),
            _ => None,
        }
    }

    /// The human-readable meaning of the code.
    pub open spec fn spec_text(self) -> Seq<char> {
        match self {
            StatusCode::Success => "Operation completed successfully"@,
            StatusCode::Unspecified => "Unspecified failure"@,
            StatusCode::Reserved1 => "Reserved; unused"@,
            StatusCode::Unsupported1 => "Requested capability set is too broad and cannot be supported"@,
            StatusCode::Denied1 => "Reassociation denied; prior association cannot be identified and transferred"@,
            StatusCode::Denied2 => "Association denied for a reason not specified in the 802.11 standard"@,
            StatusCode::Unsupported2 => "Requested authentication algorithm not supported"@,
            StatusCode::Unexpected => "Unexpected authentication sequence number"@,
            StatusCode::Rejected1 => "Authentication rejected; the response to the challenge failed"@,
            StatusCode::Rejected2 => "Authentication rejected; the next frame in the sequence did not arrive in the expected window"@,
            StatusCode::Denied3 => "Association denied; the access point is resource-constrained"@,
            StatusCode::Denied4 => "Association denied; the mobile station does not support all of the data rates required by the BSS"@,
            StatusCode::Denied5 => "Association denied; the mobile station does not support the Short Preamble option"@,
            StatusCode::Denied6 => "Association denied; the mobile station does not support the PBCC modulation option"@,
            StatusCode::Denied7 => "Association denied; the mobile station does not support the Channel Agility option"@,
            StatusCode::Denied8 => "Association denied; Spectrum Management is required"@,
            StatusCode::Denied9 => "Association denied; Power Capability value is not acceptable"@,
            StatusCode::Denied10 => "Association denied; Supported Channels is not acceptable"@,
            StatusCode::Denied11 => "Association denied; the mobile station does not support the Short Slot Time"@,
            StatusCode::Denied12 => "Association denied; the mobile station does not support DSSS-OFDM"@,
            StatusCode::Reserved2 => "Reserved"@,
            StatusCode::Invalid1 => "Information element not valid"@,
            StatusCode::Invalid2 => "Group (broadcast/multicast) cipher not valid"@,
            StatusCode::Invalid3 => "Pairwise (unicast) cipher not valid"@,
            StatusCode::Invalid4 => "Authentication and Key Management Protocol (AKMP) not valid"@,
            StatusCode::Unsupported3 => "Robust Security Network information element (RSN IE) version is not supported"@,
            StatusCode::Unsupported4 => "RSN IE capabilites are not supported"@,
            StatusCode::Unsupported5 => "Cipher suite rejected due to policy"@,
            StatusCode::Unsupported6 => "Reserved for future standardization work"@,
        }
    }

    /// The meaning of a decoded code, or that it is unknown.
    pub open spec fn spec_describe(code: Option<StatusCode>) -> Seq<char> {
        match code {
            Some(c) => c.spec_text(),
            None => "Unknown status code"@,
        }
    }

    /// The human-readable meaning of the code.
    pub fn text(&self) -> (r: &'static str)
        ensures
            r@ == self.spec_text(),
    {
        match self {
            StatusCode::Success => "Operation completed successfully",
            StatusCode::Unspecified => "Unspecified failure",
            StatusCode::Reserved1 => "Reserved; unused",
            StatusCode::Unsupported1 => "Requested capability set is too broad and cannot be supported",
            StatusCode::Denied1 => "Reassociation denied; prior association cannot be identified and transferred",
            StatusCode::Denied2 => "Association denied for a reason not specified in the 802.11 standard",
            StatusCode::Unsupported2 => "Requested authentication algorithm not supported",
            StatusCode::Unexpected => "Unexpected authentication sequence number",
            StatusCode::Rejected1 => "Authentication rejected; the response to the challenge failed",
            StatusCode::Rejected2 => "Authentication rejected; the next frame in the sequence did not arrive in the expected window",
            StatusCode::Denied3 => "Association denied; the access point is resource-constrained",
            StatusCode::Denied4 => "Association denied; the mobile station does not support all of the data rates required by the BSS",
            StatusCode::Denied5 => "Association denied; the mobile station does not support the Short Preamble option",
            StatusCode::Denied6 => "Association denied; the mobile station does not support the PBCC modulation option",
            StatusCode::Denied7 => "Association denied; the mobile station does not support the Channel Agility option",
            StatusCode::Denied8 => "Association denied; Spectrum Management is required",
            StatusCode::Denied9 => "Association denied; Power Capability value is not acceptable",
            StatusCode::Denied10 => "Association denied; Supported Channels is not acceptable",
            StatusCode::Denied11 => "Association denied; the mobile station does not support the Short Slot Time",
            StatusCode::Denied12 => "Association denied; the mobile station does not support DSSS-OFDM",
            StatusCode::Reserved2 => "Reserved",
            StatusCode::Invalid1 => "Information element not valid",
            StatusCode::Invalid2 => "Group (broadcast/multicast) cipher not valid",
            StatusCode::Invalid3 => "Pairwise (unicast) cipher not valid",
            StatusCode::Invalid4 => "Authentication and Key Management Protocol (AKMP) not valid",
            StatusCode::Unsupported3 => "Robust Security Network information element (RSN IE) version is not supported",
            StatusCode::Unsupported4 => "RSN IE capabilites are not supported",
            StatusCode::Unsupported5 => "Cipher suite rejected due to policy",
            StatusCode::Unsupported6 => "Reserved for future standardization work",
        }
    }

    /// The meaning of a decoded code, or that it is unknown.
    pub fn describe(code: Option<StatusCode>) -> (r: &'static str)
        ensures
            r@ == Self::spec_describe(code),
    {
        match code {
            Some(c) => c.text(),
            None => "Unknown status code",
        }
    }
}

/// The authentication algorithm of an Authentication body.
#[derive(Debug, Clone, Copy, PartialEq, Eq, Structural)]
pub enum AuthenticationAlgorithm {
    OpenSystemAuthentication,
    SharedKeyAuthentication,
    Reserved,
}

impl AuthenticationAlgorithm {
    pub open spec fn spec_from_u16(v: u16) -> Option<AuthenticationAlgorithm> {
        match v {
            0 => Some(AuthenticationAlgorithm::OpenSystemAuthentication),
            1 => Some(AuthenticationAlgorithm::SharedKeyAuthentication),
            2 => Some(AuthenticationAlgorithm::Reserved),
            _ => None,
        }
    }

    pub fn from_u16(v: u16) -> (r: Option<AuthenticationAlgorithm>)
        ensures
            r == Self::spec_from_u16(v),
    {
        match v {
            0 => Some(AuthenticationAlgorithm::OpenSystemAuthentication),
            1 => Some(AuthenticationAlgorithm::SharedKeyAuthentication),
            2 => Some(AuthenticationAlgorithm::Reserved),
            _ => None,
        }
    }

    /// A little-endian algorithm number at `pos`; an unknown one gives `None`.
    pub fn parse(b: &[u8], pos: usize) -> (r: Result<(usize, Option<AuthenticationAlgorithm>), Error>)
        requires
            pos <= b@.len(),
        ensures
            r is Ok <==> has(b@, pos as int, 2),
            r matches Ok((q, a)) ==> q == pos + 2 && a == Self::spec_from_u16(
                le16(b@, pos as int) as u16,
            ),
    {
        let (q, v) = le_u16(b, pos)?;
        Ok((q, Self::from_u16(v)))
    }
}

/// The bit `off` bits into the input from byte `p`, as a one-bit value.
fn bit(b: &[u8], p: usize, off: usize) -> (r: U1)
    requires
        off < 16,
        p * 8 + off < b@.len() * 8,
    ensures
        r@ == bits_value(b@, p * 8 + off, 1),
{
    proof {
        lemma2_to64();
    }
    let n = b.len();
    assert(p + off / 8 < n) by (nonlinear_arith)
        requires
            off < 16,
            p * 8 + off < n * 8,
    ;
    U1::new(get_bits(b, p + off / 8, off % 8, 1) as u8)
}

/// The capability bits of a management body, read MSB-first from two bytes.
#[derive(Debug, Clone, Copy)]
pub struct CapabilityInfo {
    pub ess: U1,
    pub ibss: U1,
    pub cf_pollable: U1,
    pub cf_poll_request: U1,
    pub privacy: U1,
    pub short_preamble: U1,
    pub pbcc: U1,
    pub channel_agility: U1,
    pub short_slot_time: U1,
    pub dsss_ofdm: U1,
}

impl CapabilityInfo {
    /// `c` is the capability field at `pos`.
    pub open spec fn decoded(b: Seq<u8>, pos: int, c: CapabilityInfo) -> bool {
        let k = pos * 8;
        &&& c.ess@ == bits_value(b, k, 1)
        &&& c.ibss@ == bits_value(b, k + 1, 1)
        &&& c.cf_pollable@ == bits_value(b, k + 2, 1)
        &&& c.cf_poll_request@ == bits_value(b, k + 3, 1)
        &&& c.privacy@ == bits_value(b, k + 4, 1)
        &&& c.short_preamble@ == bits_value(b, k + 5, 1)
        &&& c.pbcc@ == bits_value(b, k + 6, 1)
        &&& c.channel_agility@ == bits_value(b, k + 7, 1)
        &&& c.short_slot_time@ == bits_value(b, k + 10, 1)
        &&& c.dsss_ofdm@ == bits_value(b, k + 13, 1)
    }

    /// The two capability bytes at `pos`.
    pub fn parse(b: &[u8], pos: usize) -> (r: Result<(usize, CapabilityInfo), Error>)
        requires
            pos <= b@.len(),
        ensures
            r is Ok <==> has(b@, pos as int, 2),
            r matches Ok((q, c)) ==> q == pos + 2 && Self::decoded(b@, pos as int, c),
            r matches Err(e) ==> ends_in(e, pos as int, Label::CapabilityInfo),
    {
        if b.len() - pos < 2 {
            return Err(Error::new(pos, ErrorKind::NeedMore).context(pos, Label::CapabilityInfo));
        }
        let c = CapabilityInfo {
            ess: bit(b, pos, 0),
            ibss: bit(b, pos, 1),
            cf_pollable: bit(b, pos, 2),
            cf_poll_request: bit(b, pos, 3),
            privacy: bit(b, pos, 4),
            short_preamble: bit(b, pos, 5),
            pbcc: bit(b, pos, 6),
            channel_agility: bit(b, pos, 7),
            short_slot_time: bit(b, pos, 10),
            dsss_ofdm: bit(b, pos, 13),
        };
        Ok((pos + 2, c))
    }
}

/// The id and length bytes that open every information element.
#[derive(Debug, Clone, Copy, PartialEq, Eq, Structural)]
pub struct CommonFieldsElement {
    pub id: u8,
    pub len: u8,
}

/// An element whose id this decoder does not interpret; its bytes are skipped.
#[derive(Debug, Clone, Copy, PartialEq, Eq, Structural)]
pub struct UnknownElement {
    pub id: u8,
    pub len: u8,
}

/// A supported rate: a 7-bit label in units of 500 kbps, then one bit.
#[derive(Debug, Clone, Copy)]
pub struct SupportedRate {
    pub label: U7,
    pub is_mandatory: U1,
}

#[derive(Debug)]
pub struct SSID {
    pub common: CommonFieldsElement,
    pub ssid: String,
}

#[derive(Debug)]
pub struct SupportedRates {
    pub common: CommonFieldsElement,
    pub supported_rates: Vec<SupportedRate>,
}

#[derive(Debug, Clone, Copy)]
pub struct FHParamSet {
    pub common: CommonFieldsElement,
    pub dwell_time: u16,
    pub hop_set: u8,
    pub hop_pattern: u8,
    pub hop_index: u8,
}

#[derive(Debug, Clone, Copy)]
pub struct DSParamSet {
    pub common: CommonFieldsElement,
    pub current_channel: u8,
}

#[derive(Debug)]
pub struct TrafficIndicationMap {
    pub common: CommonFieldsElement,
    pub dtim_count: u8,
    pub dtim_period: u8,
    pub bitmap_control: u8,
    pub partial_virtual_bitmap: Vec<u8>,
}

#[derive(Debug, Clone, Copy)]
pub struct IBSSParamSet {
    pub common: CommonFieldsElement,
    pub atim_window: u16,
}

/// A power constraint over a band of channels.
#[derive(Debug, Clone, Copy)]
pub struct CountryConstraintTriplet {
    pub first_channel_num: u8,
    pub num_channels: u8,
    pub max_transmit_power: u8,
}

#[derive(Debug)]
pub struct Country {
    pub common: CommonFieldsElement,
    pub country_string: String,
    pub constraints: Vec<CountryConstraintTriplet>,
}

#[derive(Debug)]
pub struct RequestElement {
    pub common: CommonFieldsElement,
    pub requested_elements: Vec<u8>,
}

#[derive(Debug)]
pub struct ChallengeText {
    pub common: CommonFieldsElement,
    pub challenge_text: String,
}

#[derive(Debug, Clone, Copy)]
pub struct PowerConstraint {
    pub common: CommonFieldsElement,
    pub local_power_constraint: u8,
}

#[derive(Debug, Clone, Copy)]
pub struct TPCReport {
    pub common: CommonFieldsElement,
    pub transmit_power: u8,
    pub link_margin: u8,
}

#[derive(Debug, Clone, Copy)]
pub struct SupportedChannelsElement {
    pub common: CommonFieldsElement,
    pub first_channel: u8,
    pub num_channels: u8,
}

#[derive(Debug, Clone, Copy)]
pub struct ChannelSwitchAnnouncement {
    pub common: CommonFieldsElement,
    pub channel_switch_mode: u8,
    pub new_channel_num: u8,
    pub channel_switch_count: u8,
}

#[derive(Debug, Clone, Copy)]
pub struct QuietElement {
    pub common: CommonFieldsElement,
    pub quiet_count: u8,
    pub quiet_period: u8,
    pub quiet_duration: u16,
    pub quiet_offset: u16,
}

/// The five flags of a channel map, MSB-first; the three low bits are reserved.
#[derive(Debug, Clone, Copy)]
pub struct IBSSDFSChannelMap {
    pub bss: U1,
    pub ofdm_preamble: U1,
    pub unidentified: U1,
    pub radar: U1,
    pub unmeasured: U1,
}

#[derive(Debug, Clone, Copy)]
pub struct IBSSDFSChannelTuple {
    pub channel_num: u8,
    pub channel_map: IBSSDFSChannelMap,
}

#[derive(Debug)]
pub struct IBSSDFS {
    pub common: CommonFieldsElement,
    pub dfs_owner: Addr,
    pub dfs_recovery_interval: u8,
    pub channel_maps: Vec<IBSSDFSChannelTuple>,
}

/// Three flags, MSB-first; the five low bits are reserved.
#[derive(Debug, Clone, Copy)]
pub struct ERPInfo {
    pub common: CommonFieldsElement,
    pub non_erp_present: U1,
    pub use_protection: U1,
    pub barker_preamble: U1,
}

/// An information element, its shape selected by its id.
#[allow(non_camel_case_types)]
#[derive(Debug)]
pub enum Element {
    SSID(SSID),
    SupportedRates(SupportedRates),
    FHParameterSet(FHParamSet),
    DSParameterSet(DSParamSet),
    TrafficIndicationMap(TrafficIndicationMap),
    IBSSParameterSet(IBSSParamSet),
    Country(Country),
    Request(RequestElement),
    ChallengeText(ChallengeText),
    PowerConstraint(PowerConstraint),
    TPCReport(TPCReport),
    SupportedChannels(SupportedChannelsElement),
    ChannelSwitchAnnouncements(ChannelSwitchAnnouncement),
    Quiet(QuietElement),
    IBSS_DFS(IBSSDFS),
    ERPInfo(ERPInfo),
    Unknown(UnknownElement),
}

/// What an SSID holds when its bytes are not valid UTF-8.
pub const INVALID_SSID: &'static str = "Invalid/Malformed SSID";

/// What a country string or challenge text holds when its bytes are not
/// valid UTF-8.
pub const INVALID_TEXT: &'static str = "Invalid/Malformed text";

impl SupportedRate {
    pub open spec fn decoded(b: Seq<u8>, p: int, r: SupportedRate) -> bool {
        &&& r.label@ == bits_value(b, p * 8, 7)
        &&& r.is_mandatory@ == bits_value(b, p * 8 + 7, 1)
    }

    /// The rate byte at `p`, which the caller knows is there.
    pub fn parse(b: &[u8], p: usize) -> (r: SupportedRate)
        requires
            has(b@, p as int, 1),
        ensures
            Self::decoded(b@, p as int, r),
    {
        proof {
            lemma2_to64();
        }
        let label = U7::new(get_bits(b, p, 0, 7) as u8);
        SupportedRate { label, is_mandatory: bit(b, p, 7) }
    }
}

impl CountryConstraintTriplet {
    pub open spec fn decoded(b: Seq<u8>, p: int, t: CountryConstraintTriplet) -> bool {
        t.first_channel_num == b[p] && t.num_channels == b[p + 1] && t.max_transmit_power == b[p + 2]
    }

    /// The three bytes at `p`, which the caller knows are there.
    pub fn parse(b: &[u8], p: usize) -> (r: CountryConstraintTriplet)
        requires
            has(b@, p as int, 3),
        ensures
            Self::decoded(b@, p as int, r),
    {
        CountryConstraintTriplet {
            first_channel_num: b[p],
            num_channels: b[p + 1],
            max_transmit_power: b[p + 2],
        }
    }
}

impl IBSSDFSChannelTuple {
    pub open spec fn decoded(b: Seq<u8>, p: int, t: IBSSDFSChannelTuple) -> bool {
        let k = p * 8 + 8;
        &&& t.channel_num == b[p]
        &&& t.channel_map.bss@ == bits_value(b, k, 1)
        &&& t.channel_map.ofdm_preamble@ == bits_value(b, k + 1, 1)
        &&& t.channel_map.unidentified@ == bits_value(b, k + 2, 1)
        &&& t.channel_map.radar@ == bits_value(b, k + 3, 1)
        &&& t.channel_map.unmeasured@ == bits_value(b, k + 4, 1)
    }

    /// The channel byte and map byte at `p`, which the caller knows are there.
    pub fn parse(b: &[u8], p: usize) -> (r: IBSSDFSChannelTuple)
        requires
            has(b@, p as int, 2),
        ensures
            Self::decoded(b@, p as int, r),
    {
        let channel_map = IBSSDFSChannelMap {
            bss: bit(b, p, 8),
            ofdm_preamble: bit(b, p, 9),
            unidentified: bit(b, p, 10),
            radar: bit(b, p, 11),
            unmeasured: bit(b, p, 12),
        };
        IBSSDFSChannelTuple { channel_num: b[p], channel_map }
    }
}

impl CommonFieldsElement {
    /// The element's value bytes start at `s` and are all there.
    pub open spec fn fits(self, b: Seq<u8>, s: int) -> bool {
        has(b, s, self.len as int)
    }
}

impl SSID {
    pub open spec fn decoded(b: Seq<u8>, s: int, c: CommonFieldsElement, x: SSID) -> bool {
        x.common == c && x.ssid@ == text_or(b.subrange(s, s + c.len), INVALID_SSID@)
    }

    pub fn parse(b: &[u8], s: usize, c: CommonFieldsElement) -> (r: SSID)
        requires
            c.fits(b@, s as int),
        ensures
            Self::decoded(b@, s as int, c, r),
    {
        proof {
            assert(b@.len() == b.len());
        }
        let bytes = match take(b, s, c.len as usize) {
            Ok((_, v)) => v,
            Err(_) => Vec::new(),
        };
        SSID { common: c, ssid: decode_text(bytes, INVALID_SSID) }
    }
}

impl SupportedRates {
    pub open spec fn decoded(b: Seq<u8>, s: int, c: CommonFieldsElement, x: SupportedRates) -> bool {
        &&& x.common == c
        &&& x.supported_rates@.len() == c.len
        &&& forall|k: int|
            0 <= k < c.len ==> SupportedRate::decoded(b, s + k, #[trigger] x.supported_rates@[k])
    }

    /// One rate for each of the element's bytes.
    pub fn parse(b: &[u8], s: usize, c: CommonFieldsElement) -> (r: SupportedRates)
        requires
            c.fits(b@, s as int),
        ensures
            Self::decoded(b@, s as int, c, r),
    {
        proof {
            assert(b@.len() == b.len());
        }
        let n = c.len as usize;
        let mut v: Vec<SupportedRate> = Vec::new();
        let mut k: usize = 0;
        while k < n
            invariant
                k <= n == c.len,
                c.fits(b@, s as int),
                b@.len() == b.len(),
                v@.len() == k,
                forall|j: int| 0 <= j < k ==> SupportedRate::decoded(b@, s + j, #[trigger] v@[j]),
            decreases n - k,
        {
            v.push(SupportedRate::parse(b, s + k));
            k = k + 1;
        }
        SupportedRates { common: c, supported_rates: v }
    }
}

impl FHParamSet {
    pub open spec fn decoded(b: Seq<u8>, s: int, c: CommonFieldsElement, x: FHParamSet) -> bool {
        &&& x.common == c
        &&& x.dwell_time == le16(b, s)
        &&& x.hop_set == b[s + 2]
        &&& x.hop_pattern == b[s + 3]
        &&& x.hop_index == b[s + 4]
    }

    pub fn parse(b: &[u8], s: usize, c: CommonFieldsElement) -> (r: FHParamSet)
        requires
            c.fits(b@, s as int),
            c.len >= 5,
        ensures
            Self::decoded(b@, s as int, c, r),
    {
        proof {
            assert(b@.len() == b.len());
        }
        FHParamSet {
            common: c,
            dwell_time: get_le16(b, s),
            hop_set: b[s + 2],
            hop_pattern: b[s + 3],
            hop_index: b[s + 4],
        }
    }
}

impl DSParamSet {
    pub open spec fn decoded(b: Seq<u8>, s: int, c: CommonFieldsElement, x: DSParamSet) -> bool {
        x.common == c && x.current_channel == b[s]
    }

    pub fn parse(b: &[u8], s: usize, c: CommonFieldsElement) -> (r: DSParamSet)
        requires
            c.fits(b@, s as int),
            c.len >= 1,
        ensures
            Self::decoded(b@, s as int, c, r),
    {
        proof {
            assert(b@.len() == b.len());
        }
        DSParamSet { common: c, current_channel: b[s] }
    }
}

impl TrafficIndicationMap {
    pub open spec fn decoded(
        b: Seq<u8>,
        s: int,
        c: CommonFieldsElement,
        x: TrafficIndicationMap,
    ) -> bool {
        &&& x.common == c
        &&& x.dtim_count == b[s]
        &&& x.dtim_period == b[s + 1]
        &&& x.bitmap_control == b[s + 2]
        &&& x.partial_virtual_bitmap@ == b.subrange(s + 3, s + c.len)
    }

    /// The three fixed bytes, then the rest of the element as the bitmap.
    pub fn parse(b: &[u8], s: usize, c: CommonFieldsElement) -> (r: TrafficIndicationMap)
        requires
            c.fits(b@, s as int),
            c.len >= 3,
        ensures
            Self::decoded(b@, s as int, c, r),
    {
        proof {
            assert(b@.len() == b.len());
        }
        let partial_virtual_bitmap = match take(b, s + 3, (c.len - 3) as usize) {
            Ok((_, v)) => v,
            Err(_) => Vec::new(),
        };
        TrafficIndicationMap {
            common: c,
            dtim_count: b[s],
            dtim_period: b[s + 1],
            bitmap_control: b[s + 2],
            partial_virtual_bitmap,
        }
    }
}

impl IBSSParamSet {
    pub open spec fn decoded(b: Seq<u8>, s: int, c: CommonFieldsElement, x: IBSSParamSet) -> bool {
        x.common == c && x.atim_window == le16(b, s)
    }

    pub fn parse(b: &[u8], s: usize, c: CommonFieldsElement) -> (r: IBSSParamSet)
        requires
            c.fits(b@, s as int),
            c.len >= 2,
        ensures
            Self::decoded(b@, s as int, c, r),
    {
        proof {
            assert(b@.len() == b.len());
        }
        IBSSParamSet { common: c, atim_window: get_le16(b, s) }
    }
}

impl Country {
    pub open spec fn decoded(b: Seq<u8>, s: int, c: CommonFieldsElement, x: Country) -> bool {
        &&& x.common == c
        &&& x.country_string@ == text_or(b.subrange(s, s + 3), INVALID_TEXT@)
        &&& x.constraints@.len() == (c.len - 3) / 3
        &&& forall|k: int|
            0 <= k < x.constraints@.len() ==> CountryConstraintTriplet::decoded(
                b,
                s + 3 + 3 * k,
                #[trigger] x.constraints@[k],
            )
    }

    /// The country string, then as many whole triplets as the rest of the
    /// element holds.
    pub fn parse(b: &[u8], s: usize, c: CommonFieldsElement) -> (r: Country)
        requires
            c.fits(b@, s as int),
            c.len >= 3,
        ensures
            Self::decoded(b@, s as int, c, r),
    {
        proof {
            assert(b@.len() == b.len());
        }
        let bytes = match take(b, s, 3) {
            Ok((_, v)) => v,
            Err(_) => Vec::new(),
        };
        let country_string = decode_text(bytes, INVALID_TEXT);
        let n = ((c.len - 3) / 3) as usize;
        let mut v: Vec<CountryConstraintTriplet> = Vec::new();
        let mut k: usize = 0;
        while k < n
            invariant
                k <= n == (c.len - 3) / 3,
                c.fits(b@, s as int),
                c.len >= 3,
                b@.len() == b.len(),
                v@.len() == k,
                forall|j: int|
                    0 <= j < k ==> CountryConstraintTriplet::decoded(
                        b@,
                        s + 3 + 3 * j,
                        #[trigger] v@[j],
                    ),
            decreases n - k,
        {
            v.push(CountryConstraintTriplet::parse(b, s + 3 + 3 * k));
            k = k + 1;
        }
        Country { common: c, country_string, constraints: v }
    }
}

impl RequestElement {
    pub open spec fn decoded(b: Seq<u8>, s: int, c: CommonFieldsElement, x: RequestElement) -> bool {
        x.common == c && x.requested_elements@ == b.subrange(s, s + c.len)
    }

    pub fn parse(b: &[u8], s: usize, c: CommonFieldsElement) -> (r: RequestElement)
        requires
            c.fits(b@, s as int),
        ensures
            Self::decoded(b@, s as int, c, r),
    {
        proof {
            assert(b@.len() == b.len());
        }
        let requested_elements = match take(b, s, c.len as usize) {
            Ok((_, v)) => v,
            Err(_) => Vec::new(),
        };
        RequestElement { common: c, requested_elements }
    }
}

impl ChallengeText {
    pub open spec fn decoded(b: Seq<u8>, s: int, c: CommonFieldsElement, x: ChallengeText) -> bool {
        x.common == c && x.challenge_text@ == text_or(b.subrange(s, s + c.len), INVALID_TEXT@)
    }

    pub fn parse(b: &[u8], s: usize, c: CommonFieldsElement) -> (r: ChallengeText)
        requires
            c.fits(b@, s as int),
        ensures
            Self::decoded(b@, s as int, c, r),
    {
        proof {
            assert(b@.len() == b.len());
        }
        let bytes = match take(b, s, c.len as usize) {
            Ok((_, v)) => v,
            Err(_) => Vec::new(),
        };
        ChallengeText { common: c, challenge_text: decode_text(bytes, INVALID_TEXT) }
    }
}

impl PowerConstraint {
    pub open spec fn decoded(b: Seq<u8>, s: int, c: CommonFieldsElement, x: PowerConstraint) -> bool {
        x.common == c && x.local_power_constraint == b[s]
    }

    pub fn parse(b: &[u8], s: usize, c: CommonFieldsElement) -> (r: PowerConstraint)
        requires
            c.fits(b@, s as int),
            c.len >= 1,
        ensures
            Self::decoded(b@, s as int, c, r),
    {
        proof {
            assert(b@.len() == b.len());
        }
        PowerConstraint { common: c, local_power_constraint: b[s] }
    }
}

impl TPCReport {
    pub open spec fn decoded(b: Seq<u8>, s: int, c: CommonFieldsElement, x: TPCReport) -> bool {
        x.common == c && x.transmit_power == b[s] && x.link_margin == b[s + 1]
    }

    pub fn parse(b: &[u8], s: usize, c: CommonFieldsElement) -> (r: TPCReport)
        requires
            c.fits(b@, s as int),
            c.len >= 2,
        ensures
            Self::decoded(b@, s as int, c, r),
    {
        proof {
            assert(b@.len() == b.len());
        }
        TPCReport { common: c, transmit_power: b[s], link_margin: b[s + 1] }
    }
}

impl SupportedChannelsElement {
    pub open spec fn decoded(
        b: Seq<u8>,
        s: int,
        c: CommonFieldsElement,
        x: SupportedChannelsElement,
    ) -> bool {
        x.common == c && x.first_channel == b[s] && x.num_channels == b[s + 1]
    }

    pub fn parse(b: &[u8], s: usize, c: CommonFieldsElement) -> (r: SupportedChannelsElement)
        requires
            c.fits(b@, s as int),
            c.len >= 2,
        ensures
            Self::decoded(b@, s as int, c, r),
    {
        proof {
            assert(b@.len() == b.len());
        }
        SupportedChannelsElement { common: c, first_channel: b[s], num_channels: b[s + 1] }
    }
}

impl ChannelSwitchAnnouncement {
    pub open spec fn decoded(
        b: Seq<u8>,
        s: int,
        c: CommonFieldsElement,
        x: ChannelSwitchAnnouncement,
    ) -> bool {
        &&& x.common == c
        &&& x.channel_switch_mode == b[s]
        &&& x.new_channel_num == b[s + 1]
        &&& x.channel_switch_count == b[s + 2]
    }

    pub fn parse(b: &[u8], s: usize, c: CommonFieldsElement) -> (r: ChannelSwitchAnnouncement)
        requires
            c.fits(b@, s as int),
            c.len >= 3,
        ensures
            Self::decoded(b@, s as int, c, r),
    {
        proof {
            assert(b@.len() == b.len());
        }
        ChannelSwitchAnnouncement {
            common: c,
            channel_switch_mode: b[s],
            new_channel_num: b[s + 1],
            channel_switch_count: b[s + 2],
        }
    }
}

impl QuietElement {
    pub open spec fn decoded(b: Seq<u8>, s: int, c: CommonFieldsElement, x: QuietElement) -> bool {
        &&& x.common == c
        &&& x.quiet_count == b[s]
        &&& x.quiet_period == b[s + 1]
        &&& x.quiet_duration == le16(b, s + 2)
        &&& x.quiet_offset == le16(b, s + 4)
    }

    pub fn parse(b: &[u8], s: usize, c: CommonFieldsElement) -> (r: QuietElement)
        requires
            c.fits(b@, s as int),
            c.len >= 6,
        ensures
            Self::decoded(b@, s as int, c, r),
    {
        proof {
            assert(b@.len() == b.len());
        }
        QuietElement {
            common: c,
            quiet_count: b[s],
            quiet_period: b[s + 1],
            quiet_duration: get_le16(b, s + 2),
            quiet_offset: get_le16(b, s + 4),
        }
    }
}

impl IBSSDFS {
    pub open spec fn decoded(b: Seq<u8>, s: int, c: CommonFieldsElement, x: IBSSDFS) -> bool {
        &&& x.common == c
        &&& x.dfs_owner.0@ == b.subrange(s, s + 6)
        &&& x.dfs_recovery_interval == b[s + 6]
        &&& x.channel_maps@.len() == (c.len - 7) / 2
        &&& forall|k: int|
            0 <= k < x.channel_maps@.len() ==> IBSSDFSChannelTuple::decoded(
                b,
                s + 7 + 2 * k,
                #[trigger] x.channel_maps@[k],
            )
    }

    /// The owner and recovery interval, then as many whole channel tuples as
    /// the rest of the element holds.
    pub fn parse(b: &[u8], s: usize, c: CommonFieldsElement) -> (r: IBSSDFS)
        requires
            c.fits(b@, s as int),
            c.len >= 7,
        ensures
            Self::decoded(b@, s as int, c, r),
    {
        proof {
            assert(b@.len() == b.len());
        }
        let owner = vstd::slice::slice_subrange(b, s, s + 6);
        let dfs_owner = Addr::new(owner);
        assert(dfs_owner.0@ =~= b@.subrange(s as int, s + 6));
        let n = ((c.len - 7) / 2) as usize;
        let mut v: Vec<IBSSDFSChannelTuple> = Vec::new();
        let mut k: usize = 0;
        while k < n
            invariant
                k <= n == (c.len - 7) / 2,
                c.fits(b@, s as int),
                c.len >= 7,
                b@.len() == b.len(),
                v@.len() == k,
                forall|j: int|
                    0 <= j < k ==> IBSSDFSChannelTuple::decoded(b@, s + 7 + 2 * j, #[trigger] v@[j]),
            decreases n - k,
        {
            v.push(IBSSDFSChannelTuple::parse(b, s + 7 + 2 * k));
            k = k + 1;
        }
        IBSSDFS { common: c, dfs_owner, dfs_recovery_interval: b[s + 6], channel_maps: v }
    }
}

impl ERPInfo {
    pub open spec fn decoded(b: Seq<u8>, s: int, c: CommonFieldsElement, x: ERPInfo) -> bool {
        &&& x.common == c
        &&& x.non_erp_present@ == bits_value(b, s * 8, 1)
        &&& x.use_protection@ == bits_value(b, s * 8 + 1, 1)
        &&& x.barker_preamble@ == bits_value(b, s * 8 + 2, 1)
    }

    pub fn parse(b: &[u8], s: usize, c: CommonFieldsElement) -> (r: ERPInfo)
        requires
            c.fits(b@, s as int),
            c.len >= 1,
        ensures
            Self::decoded(b@, s as int, c, r),
    {
        proof {
            assert(b@.len() == b.len());
        }
        ERPInfo {
            common: c,
            non_erp_present: bit(b, s, 0),
            use_protection: bit(b, s, 1),
            barker_preamble: bit(b, s, 2),
        }
    }
}

impl UnknownElement {
    pub open spec fn decoded(c: CommonFieldsElement, x: UnknownElement) -> bool {
        x.id == c.id && x.len == c.len
    }

    /// An element whose bytes are skipped.
    pub fn parse(c: CommonFieldsElement) -> (r: UnknownElement)
        ensures
            Self::decoded(c, r),
    {
        UnknownElement { id: c.id, len: c.len }
    }
}

impl Element {
    /// The fewest value bytes the shape of element `id` needs.
    pub open spec fn min_len(id: u8) -> int {
        match id {
            2 => 5,
            3 => 1,
            5 => 3,
            6 => 2,
            7 => 3,
            32 => 1,
            35 => 2,
            36 => 2,
            37 => 3,
            40 => 6,
            41 => 7,
            42 => 1,
            _ => 0,
        }
    }

    pub fn min_len_of(id: u8) -> (r: u8)
        ensures
            r == Self::min_len(id),
    {
        match id {
            2 => 5,
            3 => 1,
            5 => 3,
            6 => 2,
            7 => 3,
            32 => 1,
            35 => 2,
            36 => 2,
            37 => 3,
            40 => 6,
            41 => 7,
            42 => 1,
            _ => 0,
        }
    }

    /// Decoding at `pos` succeeds exactly when the id and length bytes, and
    /// the `len` value bytes, are there and the shape fits in them.
    pub open spec fn ok(b: Seq<u8>, pos: int) -> bool {
        &&& has(b, pos, 2)
        &&& has(b, pos + 2, b[pos + 1] as int)
        &&& b[pos + 1] >= Self::min_len(b[pos])
    }

    /// Where the element at `pos` ends.
    pub open spec fn end(b: Seq<u8>, pos: int) -> int {
        pos + 2 + b[pos + 1]
    }

    /// `e` is the element at `pos`: its arm is the one its id selects.
    pub open spec fn decoded(b: Seq<u8>, pos: int, e: Element) -> bool {
        let c = CommonFieldsElement { id: b[pos], len: b[pos + 1] };
        let s = pos + 2;
        match b[pos] {
            0 => e matches Element::SSID(x) && SSID::decoded(b, s, c, x),
            1 => e matches Element::SupportedRates(x) && SupportedRates::decoded(b, s, c, x),
            2 => e matches Element::FHParameterSet(x) && FHParamSet::decoded(b, s, c, x),
            3 => e matches Element::DSParameterSet(x) && DSParamSet::decoded(b, s, c, x),
            5 => e matches Element::TrafficIndicationMap(x) && TrafficIndicationMap::decoded(b, s, c, x),
            6 => e matches Element::IBSSParameterSet(x) && IBSSParamSet::decoded(b, s, c, x),
            7 => e matches Element::Country(x) && Country::decoded(b, s, c, x),
            10 => e matches Element::Request(x) && RequestElement::decoded(b, s, c, x),
            16 => e matches Element::ChallengeText(x) && ChallengeText::decoded(b, s, c, x),
            32 => e matches Element::PowerConstraint(x) && PowerConstraint::decoded(b, s, c, x),
            35 => e matches Element::TPCReport(x) && TPCReport::decoded(b, s, c, x),
            36 => e matches Element::SupportedChannels(x) && SupportedChannelsElement::decoded(b, s, c, x),
            37 => e matches Element::ChannelSwitchAnnouncements(x)
                && ChannelSwitchAnnouncement::decoded(b, s, c, x),
            40 => e matches Element::Quiet(x) && QuietElement::decoded(b, s, c, x),
            41 => e matches Element::IBSS_DFS(x) && IBSSDFS::decoded(b, s, c, x),
            42 => e matches Element::ERPInfo(x) && ERPInfo::decoded(b, s, c, x),
            _ => e matches Element::Unknown(x) && UnknownElement::decoded(c, x),
        }
    }

    fn value(b: &[u8], s: usize, c: CommonFieldsElement) -> (r: Element)
        requires
            c.fits(b@, s as int),
            c.len >= Self::min_len(c.id),
        ensures
            Self::decoded(b@, s - 2, r) <== (s >= 2 && b@[s - 2] == c.id && b@[s - 1] == c.len),
    {
        match c.id {
            0 => Element::SSID(SSID::parse(b, s, c)),
            1 => Element::SupportedRates(SupportedRates::parse(b, s, c)),
            2 => Element::FHParameterSet(FHParamSet::parse(b, s, c)),
            3 => Element::DSParameterSet(DSParamSet::parse(b, s, c)),
            5 => Element::TrafficIndicationMap(TrafficIndicationMap::parse(b, s, c)),
            6 => Element::IBSSParameterSet(IBSSParamSet::parse(b, s, c)),
            7 => Element::Country(Country::parse(b, s, c)),
            10 => Element::Request(RequestElement::parse(b, s, c)),
            16 => Element::ChallengeText(ChallengeText::parse(b, s, c)),
            32 => Element::PowerConstraint(PowerConstraint::parse(b, s, c)),
            35 => Element::TPCReport(TPCReport::parse(b, s, c)),
            36 => Element::SupportedChannels(SupportedChannelsElement::parse(b, s, c)),
            37 => Element::ChannelSwitchAnnouncements(ChannelSwitchAnnouncement::parse(b, s, c)),
            40 => Element::Quiet(QuietElement::parse(b, s, c)),
            41 => Element::IBSS_DFS(IBSSDFS::parse(b, s, c)),
            42 => Element::ERPInfo(ERPInfo::parse(b, s, c)),
            _ => Element::Unknown(UnknownElement::parse(c)),
        }
    }

    /// The element at `pos`; it consumes its id, length and `len` value bytes.
    pub fn parse_at(b: &[u8], pos: usize) -> (r: Result<(usize, Element), Error>)
        requires
            pos <= b@.len(),
        ensures
            r is Ok <==> Self::ok(b@, pos as int),
            r matches Ok((q, e)) ==> q == Self::end(b@, pos as int) && Self::decoded(
                b@,
                pos as int,
                e,
            ),
            r matches Err(e) ==> ends_in(e, pos as int, Label::InformationElement),
    {
        if b.len() - pos < 2 {
            return Err(
                Error::new(pos, ErrorKind::NeedMore).context(pos, Label::InformationElement),
            );
        }
        let c = CommonFieldsElement { id: b[pos], len: b[pos + 1] };
        let s = pos + 2;
        if (c.len as usize) > b.len() - s || c.len < Self::min_len_of(c.id) {
            return Err(Error::new(s, ErrorKind::NeedMore).context(pos, Label::InformationElement));
        }
        let e = Self::value(b, s, c);
        Ok((s + c.len as usize, e))
    }

    /// The element at the start of `i`, and what is left of `i`.
    pub fn parse(i: &[u8]) -> (r: Result<(&[u8], Element), Error>)
        ensures
            r is Ok <==> Self::ok(i@, 0),
            r matches Ok((rest, e)) ==> is_rest(i@, rest@) && consumed_len(i@, rest@) == Self::end(
                i@,
                0,
            ) && Self::decoded(i@, 0, e),
            r matches Err(e) ==> ends_in(e, 0, Label::InformationElement),
    {
        let (q, e) = Self::parse_at(i, 0)?;
        Ok((rest_of(i, q), e))
    }
}

/// `v` are elements decoded one after another from `pos`, the last one
/// ending at `q`.
pub open spec fn elements_run(b: Seq<u8>, pos: int, v: Seq<Element>, q: int) -> bool
    decreases v.len(),
{
    if v.len() == 0 {
        q == pos
    } else {
        &&& Element::ok(b, pos)
        &&& Element::decoded(b, pos, v[0])
        &&& elements_run(b, Element::end(b, pos), v.drop_first(), q)
    }
}

/// A run of elements stops at `q`: the input is over, or no element decodes there.
pub open spec fn elements_stop(b: Seq<u8>, q: int) -> bool {
    q >= b.len() || !Element::ok(b, q)
}

/// `v` is the longest run of elements that decodes from `pos` on.
pub open spec fn elements_decoded(b: Seq<u8>, pos: int, v: Seq<Element>) -> bool {
    exists|q: int| #[trigger] elements_run(b, pos, v, q) && elements_stop(b, q)
}

proof fn lemma_run_push(b: Seq<u8>, pos: int, v: Seq<Element>, q: int, e: Element)
    requires
        elements_run(b, pos, v, q),
        Element::ok(b, q),
        Element::decoded(b, q, e),
    ensures
        elements_run(b, pos, v.push(e), Element::end(b, q)),
    decreases v.len(),
{
    let w = v.push(e);
    if v.len() == 0 {
        assert(w.drop_first() =~= Seq::<Element>::empty());
        assert(w[0] == e);
        assert(elements_run(b, Element::end(b, q), w.drop_first(), Element::end(b, q)));
    } else {
        lemma_run_push(b, Element::end(b, pos), v.drop_first(), q, e);
        assert(w.drop_first() =~= v.drop_first().push(e));
        assert(w[0] == v[0]);
    }
}

impl Element {
    /// Elements, one after another from `pos`, until the input ends or an
    /// element fails to decode; this never fails, and it consumes the rest
    /// of the input.
    pub fn parse_many(b: &[u8], pos: usize) -> (r: Vec<Element>)
        requires
            pos <= b@.len(),
        ensures
            elements_decoded(b@, pos as int, r@),
    {
        let mut v: Vec<Element> = Vec::new();
        let mut p = pos;
        let mut done = false;
        while !done && p < b.len()
            invariant
                pos <= p <= b@.len(),
                elements_run(b@, pos as int, v@, p as int),
                done ==> !Element::ok(b@, p as int),
            decreases b@.len() - p + (if done { 0int } else { 1int }),
        {
            match Element::parse_at(b, p) {
                Ok((q, e)) => {
                    proof {
                        lemma_run_push(b@, pos as int, v@, p as int, e);
                    }
                    v.push(e);
                    p = q;
                },
                Err(_) => {
                    done = true;
                },
            }
        }
        assert(elements_run(b@, pos as int, v@, p as int) && elements_stop(b@, p as int));
        v
    }
}

/// The body of a Beacon: fixed fields, then information elements up to the
/// end of the body.
#[derive(Debug)]
pub struct BeaconFrameBody {
    pub timestamp: u64,
    pub beacon_interval: u16,
    pub capability_info: CapabilityInfo,
    pub dynamic_fields: Vec<Element>,
}

/// The body of a Probe Response, laid out as a Beacon body.
#[derive(Debug)]
pub struct ProbeResponseFrameBody {
    pub timestamp: u64,
    pub beacon_interval: u16,
    pub capability_info: CapabilityInfo,
    pub dynamic_fields: Vec<Element>,
}

/// The input without its last four bytes, which hold the frame's FCS.
pub open spec fn before_fcs(b: Seq<u8>) -> Seq<u8> {
    b.subrange(0, b.len() - 4)
}

/// Decoding a Beacon-like body at `pos`: fixed fields, then elements up to
/// four bytes before the end of the input.
fn beacon_fields(b: &[u8], pos: usize) -> (r: Result<(u64, u16, CapabilityInfo, Vec<Element>), Error>)
    requires
        pos <= b@.len(),
    ensures
        r is Ok <==> has(b@, pos as int, 16),
        r matches Ok((t, i, c, v)) ==> {
            &&& t == le64(b@, pos as int)
            &&& i == le16(b@, pos + 8)
            &&& CapabilityInfo::decoded(b@, pos + 10, c)
            &&& elements_decoded(before_fcs(b@), pos + 12, v@)
        },
{
    if b.len() - pos < 16 {
        return Err(Error::new(pos, ErrorKind::NeedMore));
    }
    let (i, timestamp) = le_u64(b, pos)?;
    let (i, beacon_interval) = le_u16(b, i)?;
    let (i, capability_info) = CapabilityInfo::parse(b, i)?;
    let elements = vstd::slice::slice_subrange(b, 0, b.len() - 4);
    let dynamic_fields = Element::parse_many(elements, i);
    Ok((timestamp, beacon_interval, capability_info, dynamic_fields))
}

impl BeaconFrameBody {
    /// Decoding at `pos` succeeds exactly when the 12 bytes of fixed fields
    /// and the 4 bytes kept for the FCS are there.
    pub open spec fn ok(b: Seq<u8>, pos: int) -> bool {
        has(b, pos, 16)
    }

    /// `x` is the body at `pos`; its elements run up to four bytes before
    /// the end of the input, which are left for the FCS.
    pub open spec fn decoded(b: Seq<u8>, pos: int, x: BeaconFrameBody) -> bool {
        &&& x.timestamp == le64(b, pos)
        &&& x.beacon_interval == le16(b, pos + 8)
        &&& CapabilityInfo::decoded(b, pos + 10, x.capability_info)
        &&& elements_decoded(before_fcs(b), pos + 12, x.dynamic_fields@)
    }

    /// The body at `pos`, `b` ending with the frame's FCS; the returned
    /// position is that of the FCS.
    pub fn parse(b: &[u8], pos: usize) -> (r: Result<(usize, BeaconFrameBody), Error>)
        requires
            pos <= b@.len(),
        ensures
            r is Ok <==> Self::ok(b@, pos as int),
            r matches Ok((q, x)) ==> q == b@.len() - 4 && Self::decoded(b@, pos as int, x),
            r matches Err(e) ==> ends_in(e, pos as int, Label::BeaconBody),
    {
        match beacon_fields(b, pos) {
            Ok((timestamp, beacon_interval, capability_info, dynamic_fields)) => Ok(
                (
                    b.len() - 4,
                    BeaconFrameBody { timestamp, beacon_interval, capability_info, dynamic_fields },
                ),
            ),
            Err(e) => Err(e.context(pos, Label::BeaconBody)),
        }
    }
}

impl ProbeResponseFrameBody {
    /// Decoding at `pos` succeeds exactly when the 12 bytes of fixed fields
    /// and the 4 bytes kept for the FCS are there.
    pub open spec fn ok(b: Seq<u8>, pos: int) -> bool {
        has(b, pos, 16)
    }

    /// `x` is the body at `pos`; its elements run up to four bytes before
    /// the end of the input, which are left for the FCS.
    pub open spec fn decoded(b: Seq<u8>, pos: int, x: ProbeResponseFrameBody) -> bool {
        &&& x.timestamp == le64(b, pos)
        &&& x.beacon_interval == le16(b, pos + 8)
        &&& CapabilityInfo::decoded(b, pos + 10, x.capability_info)
        &&& elements_decoded(before_fcs(b), pos + 12, x.dynamic_fields@)
    }

    /// The body at `pos`, `b` ending with the frame's FCS; the returned
    /// position is that of the FCS.
    pub fn parse(b: &[u8], pos: usize) -> (r: Result<(usize, ProbeResponseFrameBody), Error>)
        requires
            pos <= b@.len(),
        ensures
            r is Ok <==> Self::ok(b@, pos as int),
            r matches Ok((q, x)) ==> q == b@.len() - 4 && Self::decoded(b@, pos as int, x),
            r matches Err(e) ==> ends_in(e, pos as int, Label::ProbeResponseBody),
    {
        match beacon_fields(b, pos) {
            Ok((timestamp, beacon_interval, capability_info, dynamic_fields)) => Ok(
                (
                    b.len() - 4,
                    ProbeResponseFrameBody {
                        timestamp,
                        beacon_interval,
                        capability_info,
                        dynamic_fields,
                    },
                ),
            ),
            Err(e) => Err(e.context(pos, Label::ProbeResponseBody)),
        }
    }
}

/// The body of a Probe Request: three elements in order.
#[derive(Debug)]
pub struct ProbeRequestFrameBody {
    pub ssid: Element,
    pub supported_rates: Element,
    pub extended_support_rates: Element,
}

impl ProbeRequestFrameBody {
    /// Where the body at `pos` ends.
    pub open spec fn end(b: Seq<u8>, pos: int) -> int {
        Element::end(b, Element::end(b, Element::end(b, pos)))
    }

    pub open spec fn ok(b: Seq<u8>, pos: int) -> bool {
        let p1 = Element::end(b, pos);
        &&& Element::ok(b, pos)
        &&& Element::ok(b, p1)
        &&& Element::ok(b, Element::end(b, p1))
    }

    /// `x` is the body at `pos`, which ends at `end`.
    pub open spec fn decoded(b: Seq<u8>, pos: int, end: int, x: ProbeRequestFrameBody) -> bool {
        let p1 = Element::end(b, pos);
        let p2 = Element::end(b, p1);
        &&& Element::decoded(b, pos, x.ssid)
        &&& Element::decoded(b, p1, x.supported_rates)
        &&& Element::decoded(b, p2, x.extended_support_rates)
        &&& end == Element::end(b, p2)
    }

    fn fields(b: &[u8], pos: usize) -> (r: Result<(usize, ProbeRequestFrameBody), Error>)
        requires
            pos <= b@.len(),
        ensures
            r is Ok <==> Self::ok(b@, pos as int),
            r matches Ok((q, x)) ==> Self::decoded(b@, pos as int, q as int, x),
    {
        let (i, ssid) = Element::parse_at(b, pos)?;
        let (i, supported_rates) = Element::parse_at(b, i)?;
        let (i, extended_support_rates) = Element::parse_at(b, i)?;
        Ok((i, ProbeRequestFrameBody { ssid, supported_rates, extended_support_rates }))
    }

    /// The body at `pos`.
    pub fn parse(b: &[u8], pos: usize) -> (r: Result<(usize, ProbeRequestFrameBody), Error>)
        requires
            pos <= b@.len(),
        ensures
            r is Ok <==> Self::ok(b@, pos as int),
            r matches Ok((q, x)) ==> Self::decoded(b@, pos as int, q as int, x),
            r matches Err(e) ==> ends_in(e, pos as int, Label::ProbeRequestBody),
    {
        match Self::fields(b, pos) {
            Ok(x) => Ok(x),
            Err(e) => Err(e.context(pos, Label::ProbeRequestBody)),
        }
    }
}

/// The body of an Association Request.
#[derive(Debug)]
pub struct AssociationRequestFrameBody {
    pub capability_info: CapabilityInfo,
    pub listen_interval: u16,
    pub ssid: Element,
    pub supported_rates: Element,
}

impl AssociationRequestFrameBody {
    /// Where the body at `pos` ends.
    pub open spec fn end(b: Seq<u8>, pos: int) -> int {
        Element::end(b, Element::end(b, pos + 4))
    }

    pub open spec fn ok(b: Seq<u8>, pos: int) -> bool {
        &&& has(b, pos, 4)
        &&& Element::ok(b, pos + 4)
        &&& Element::ok(b, Element::end(b, pos + 4))
    }

    /// `x` is the body at `pos`, which ends at `end`.
    pub open spec fn decoded(b: Seq<u8>, pos: int, end: int, x: AssociationRequestFrameBody) -> bool {
        let p1 = Element::end(b, pos + 4);
        &&& CapabilityInfo::decoded(b, pos, x.capability_info)
        &&& x.listen_interval == le16(b, pos + 2)
        &&& Element::decoded(b, pos + 4, x.ssid)
        &&& Element::decoded(b, p1, x.supported_rates)
        &&& end == Element::end(b, p1)
    }

    fn fields(b: &[u8], pos: usize) -> (r: Result<(usize, AssociationRequestFrameBody), Error>)
        requires
            pos <= b@.len(),
        ensures
            r is Ok <==> Self::ok(b@, pos as int),
            r matches Ok((q, x)) ==> Self::decoded(b@, pos as int, q as int, x),
    {
        if b.len() - pos < 4 {
            return Err(Error::new(pos, ErrorKind::NeedMore));
        }
        let (i, capability_info) = CapabilityInfo::parse(b, pos)?;
        let (i, listen_interval) = le_u16(b, i)?;
        let (i, ssid) = Element::parse_at(b, i)?;
        let (i, supported_rates) = Element::parse_at(b, i)?;
        Ok((i, AssociationRequestFrameBody { capability_info, listen_interval, ssid, supported_rates }))
    }

    /// The body at `pos`.
    pub fn parse(b: &[u8], pos: usize) -> (r: Result<(usize, AssociationRequestFrameBody), Error>)
        requires
            pos <= b@.len(),
        ensures
            r is Ok <==> Self::ok(b@, pos as int),
            r matches Ok((q, x)) ==> Self::decoded(b@, pos as int, q as int, x),
            r matches Err(e) ==> ends_in(e, pos as int, Label::AssociationRequestBody),
    {
        match Self::fields(b, pos) {
            Ok(x) => Ok(x),
            Err(e) => Err(e.context(pos, Label::AssociationRequestBody)),
        }
    }
}

/// The body of a Reassociation Request: an Association Request body with the
/// current access point's address before the SSID.
#[derive(Debug)]
pub struct ReassociationRequestFrameBody {
    pub capability_info: CapabilityInfo,
    pub listen_interval: u16,
    pub current_ap_address: Addr,
    pub ssid: Element,
    pub supported_rates: Element,
}

impl ReassociationRequestFrameBody {
    /// Where the body at `pos` ends.
    pub open spec fn end(b: Seq<u8>, pos: int) -> int {
        Element::end(b, Element::end(b, pos + 10))
    }

    pub open spec fn ok(b: Seq<u8>, pos: int) -> bool {
        &&& has(b, pos, 10)
        &&& Element::ok(b, pos + 10)
        &&& Element::ok(b, Element::end(b, pos + 10))
    }

    /// `x` is the body at `pos`, which ends at `end`.
    pub open spec fn decoded(
        b: Seq<u8>,
        pos: int,
        end: int,
        x: ReassociationRequestFrameBody,
    ) -> bool {
        let p1 = Element::end(b, pos + 10);
        &&& CapabilityInfo::decoded(b, pos, x.capability_info)
        &&& x.listen_interval == le16(b, pos + 2)
        &&& x.current_ap_address.0@ == b.subrange(pos + 4, pos + 10)
        &&& Element::decoded(b, pos + 10, x.ssid)
        &&& Element::decoded(b, p1, x.supported_rates)
        &&& end == Element::end(b, p1)
    }

    fn fields(b: &[u8], pos: usize) -> (r: Result<(usize, ReassociationRequestFrameBody), Error>)
        requires
            pos <= b@.len(),
        ensures
            r is Ok <==> Self::ok(b@, pos as int),
            r matches Ok((q, x)) ==> Self::decoded(b@, pos as int, q as int, x),
    {
        if b.len() - pos < 10 {
            return Err(Error::new(pos, ErrorKind::NeedMore));
        }
        let (i, capability_info) = CapabilityInfo::parse(b, pos)?;
        let (i, listen_interval) = le_u16(b, i)?;
        let (i, current_ap_address) = Addr::parse(b, i)?;
        let (i, ssid) = Element::parse_at(b, i)?;
        let (i, supported_rates) = Element::parse_at(b, i)?;
        let x = ReassociationRequestFrameBody {
            capability_info,
            listen_interval,
            current_ap_address,
            ssid,
            supported_rates,
        };
        Ok((i, x))
    }

    /// The body at `pos`.
    pub fn parse(b: &[u8], pos: usize) -> (r: Result<(usize, ReassociationRequestFrameBody), Error>)
        requires
            pos <= b@.len(),
        ensures
            r is Ok <==> Self::ok(b@, pos as int),
            r matches Ok((q, x)) ==> Self::decoded(b@, pos as int, q as int, x),
            r matches Err(e) ==> ends_in(e, pos as int, Label::ReassociationRequestBody),
    {
        match Self::fields(b, pos) {
            Ok(x) => Ok(x),
            Err(e) => Err(e.context(pos, Label::ReassociationRequestBody)),
        }
    }
}

/// The body of an Association or Reassociation Response.
#[derive(Debug)]
pub struct AssociationResponseFrameBody {
    pub capability_info: CapabilityInfo,
    pub status_code: Option<StatusCode>,
    pub association_id: u16,
    pub supported_rates: Element,
}

impl AssociationResponseFrameBody {
    /// Where the body at `pos` ends.
    pub open spec fn end(b: Seq<u8>, pos: int) -> int {
        Element::end(b, pos + 6)
    }

    pub open spec fn ok(b: Seq<u8>, pos: int) -> bool {
        &&& has(b, pos, 6)
        &&& Element::ok(b, pos + 6)
    }

    /// `x` is the body at `pos`, which ends at `end`.
    pub open spec fn decoded(b: Seq<u8>, pos: int, end: int, x: AssociationResponseFrameBody) -> bool {
        &&& CapabilityInfo::decoded(b, pos, x.capability_info)
        &&& x.status_code == StatusCode::spec_from_u16(le16(b, pos + 2) as u16)
        &&& x.association_id == le16(b, pos + 4)
        &&& Element::decoded(b, pos + 6, x.supported_rates)
        &&& end == Element::end(b, pos + 6)
    }

    /// The meaning of the status code.
    pub fn status_text(&self) -> (r: &'static str)
        ensures
            r@ == StatusCode::spec_describe(self.status_code),
    {
        StatusCode::describe(self.status_code)
    }

    fn fields(b: &[u8], pos: usize) -> (r: Result<(usize, AssociationResponseFrameBody), Error>)
        requires
            pos <= b@.len(),
        ensures
            r is Ok <==> Self::ok(b@, pos as int),
            r matches Ok((q, x)) ==> Self::decoded(b@, pos as int, q as int, x),
    {
        if b.len() - pos < 6 {
            return Err(Error::new(pos, ErrorKind::NeedMore));
        }
        let (i, capability_info) = CapabilityInfo::parse(b, pos)?;
        let (i, status) = le_u16(b, i)?;
        let (i, association_id) = le_u16(b, i)?;
        let (i, supported_rates) = Element::parse_at(b, i)?;
        let x = AssociationResponseFrameBody {
            capability_info,
            status_code: StatusCode::from_u16(status),
            association_id,
            supported_rates,
        };
        Ok((i, x))
    }

    /// The body at `pos`.
    pub fn parse(b: &[u8], pos: usize) -> (r: Result<(usize, AssociationResponseFrameBody), Error>)
        requires
            pos <= b@.len(),
        ensures
            r is Ok <==> Self::ok(b@, pos as int),
            r matches Ok((q, x)) ==> Self::decoded(b@, pos as int, q as int, x),
            r matches Err(e) ==> ends_in(e, pos as int, Label::AssociationResponseBody),
    {
        match Self::fields(b, pos) {
            Ok(x) => Ok(x),
            Err(e) => Err(e.context(pos, Label::AssociationResponseBody)),
        }
    }
}

/// The body of an Authentication frame.
#[derive(Debug)]
pub struct AuthenticationFrameBody {
    pub algo_num: Option<AuthenticationAlgorithm>,
    pub auth_seq: u16,
    pub status_code: Option<StatusCode>,
    pub challenge_text: Element,
}

impl AuthenticationFrameBody {
    /// Where the body at `pos` ends.
    pub open spec fn end(b: Seq<u8>, pos: int) -> int {
        Element::end(b, pos + 6)
    }

    pub open spec fn ok(b: Seq<u8>, pos: int) -> bool {
        &&& has(b, pos, 6)
        &&& Element::ok(b, pos + 6)
    }

    /// `x` is the body at `pos`, which ends at `end`.
    pub open spec fn decoded(b: Seq<u8>, pos: int, end: int, x: AuthenticationFrameBody) -> bool {
        &&& x.algo_num == AuthenticationAlgorithm::spec_from_u16(le16(b, pos) as u16)
        &&& x.auth_seq == le16(b, pos + 2)
        &&& x.status_code == StatusCode::spec_from_u16(le16(b, pos + 4) as u16)
        &&& Element::decoded(b, pos + 6, x.challenge_text)
        &&& end == Element::end(b, pos + 6)
    }

    /// The meaning of the status code.
    pub fn status_text(&self) -> (r: &'static str)
        ensures
            r@ == StatusCode::spec_describe(self.status_code),
    {
        StatusCode::describe(self.status_code)
    }

    fn fields(b: &[u8], pos: usize) -> (r: Result<(usize, AuthenticationFrameBody), Error>)
        requires
            pos <= b@.len(),
        ensures
            r is Ok <==> Self::ok(b@, pos as int),
            r matches Ok((q, x)) ==> Self::decoded(b@, pos as int, q as int, x),
    {
        if b.len() - pos < 6 {
            return Err(Error::new(pos, ErrorKind::NeedMore));
        }
        let (i, algo_num) = AuthenticationAlgorithm::parse(b, pos)?;
        let (i, auth_seq) = le_u16(b, i)?;
        let (i, status) = le_u16(b, i)?;
        let (i, challenge_text) = Element::parse_at(b, i)?;
        let x = AuthenticationFrameBody {
            algo_num,
            auth_seq,
            status_code: StatusCode::from_u16(status),
            challenge_text,
        };
        Ok((i, x))
    }

    /// The body at `pos`.
    pub fn parse(b: &[u8], pos: usize) -> (r: Result<(usize, AuthenticationFrameBody), Error>)
        requires
            pos <= b@.len(),
        ensures
            r is Ok <==> Self::ok(b@, pos as int),
            r matches Ok((q, x)) ==> Self::decoded(b@, pos as int, q as int, x),
            r matches Err(e) ==> ends_in(e, pos as int, Label::AuthenticationBody),
    {
        match Self::fields(b, pos) {
            Ok(x) => Ok(x),
            Err(e) => Err(e.context(pos, Label::AuthenticationBody)),
        }
    }
}

/// The body of a Deauthentication or Disassociation frame: a reason code.
#[derive(Debug, Clone, Copy)]
pub struct DeauthenticationFrameBody {
    pub reason_code: Option<ReasonCode>,
}

impl DeauthenticationFrameBody {
    pub open spec fn ok(b: Seq<u8>, pos: int) -> bool {
        has(b, pos, 2)
    }

    /// `x` is the body at `pos`, which ends at `end`.
    pub open spec fn decoded(b: Seq<u8>, pos: int, end: int, x: DeauthenticationFrameBody) -> bool {
        x.reason_code == ReasonCode::spec_from_u16(le16(b, pos) as u16) && end == pos + 2
    }

    /// The meaning of the reason code.
    pub fn reason_text(&self) -> (r: &'static str)
        ensures
            r@ == ReasonCode::spec_describe(self.reason_code),
    {
        ReasonCode::describe(self.reason_code)
    }

    /// The body at `pos`; `label` names the frame it belongs to.
    pub fn parse(b: &[u8], pos: usize, label: Label) -> (r: Result<(usize, DeauthenticationFrameBody), Error>)
        requires
            pos <= b@.len(),
        ensures
            r is Ok <==> Self::ok(b@, pos as int),
            r matches Ok((q, x)) ==> Self::decoded(b@, pos as int, q as int, x),
            r matches Err(e) ==> ends_in(e, pos as int, label),
    {
        match le_u16(b, pos) {
            Ok((q, v)) => Ok((q, DeauthenticationFrameBody { reason_code: ReasonCode::from_u16(v) })),
            Err(e) => Err(e.context(pos, label)),
        }
    }
}

} // verus!
