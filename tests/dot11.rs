use netparse::dot11::{Dot11Addr, Frame, FrameBody, Subtype, Type};
use netparse::link::{decode_link_frame, LinkFrame};
use netparse::data::DataFrameBody;
use netparse::management::{
    BeaconFrameBody, CommonFieldsElement, Element, ProbeResponseFrameBody, ReasonCode, StatusCode,
    INVALID_SSID,
};
use netparse::parse::{ErrorKind, Label};

const A: [u8; 6] = [0xA0, 0xA1, 0xA2, 0xA3, 0xA4, 0xA5];
const B: [u8; 6] = [0xB0, 0xB1, 0xB2, 0xB3, 0xB4, 0xB5];
const C: [u8; 6] = [0xC0, 0xC1, 0xC2, 0xC3, 0xC4, 0xC5];
const D: [u8; 6] = [0xD0, 0xD1, 0xD2, 0xD3, 0xD4, 0xD5];

fn frame(fc: [u8; 2], addrs: &[[u8; 6]], seq: Option<[u8; 2]>, body: &[u8]) -> Vec<u8> {
    let mut v = vec![fc[0], fc[1], 0x2C, 0x00];
    for (i, a) in addrs.iter().enumerate() {
        v.extend_from_slice(a);
        if i == 2 {
            if let Some(s) = seq {
                v.extend_from_slice(&s);
            }
        }
    }
    v.extend_from_slice(body);
    v.extend_from_slice(&[0x11, 0x22, 0x33, 0x44]);
    v
}

fn addr_of(a: &Dot11Addr) -> [u8; 6] {
    a.addr().0
}

#[test]
fn data_frame_to_ds() {
    let body = [0xAA, 0xAA, 0x03, 0x00, 0x00, 0x00, 0x08, 0x00];
    let bytes = frame([0x08, 0x01], &[A, B, C], Some([0x10, 0x00]), &body);
    let (rest, f) = Frame::parse(&bytes).unwrap();
    assert!(rest.is_empty());
    assert_eq!(f.fc.typ, Type::Data);
    assert_eq!(f.fc.subtype, Subtype::Data);
    assert_eq!(f.fc.flags.to_ds.value(), 1);
    assert_eq!(f.fc.flags.from_ds.value(), 0);
    assert_eq!(f.duration, 44);
    assert!(matches!(f.addr1, Dot11Addr::BSSID(_)));
    assert!(matches!(f.addr2, Some(Dot11Addr::SourceAddress(_))));
    assert!(matches!(f.addr3, Some(Dot11Addr::DestinationAddress(_))));
    assert!(f.addr4.is_none());
    assert_eq!(addr_of(&f.addr1), A);
    assert_eq!(addr_of(f.addr2.as_ref().unwrap()), B);
    assert_eq!(addr_of(f.addr3.as_ref().unwrap()), C);
    let seq = f.seq_control.unwrap();
    assert_eq!(seq.frag_num.value(), 0);
    assert_eq!(seq.seq_num.value(), 1);
    match f.frame_body {
        FrameBody::Data(d) => assert_eq!(d.payload.0, body.to_vec()),
        other => panic!("expected a data body, got {:?}", other),
    }
    assert_eq!(f.fcs, 0x44332211);
}

#[test]
fn data_frame_address_layouts() {
    let bytes = frame([0x08, 0x00], &[A, B, C], Some([0x00, 0x00]), &[]);
    let (_, f) = Frame::parse(&bytes).unwrap();
    assert!(matches!(f.addr1, Dot11Addr::DestinationAddress(_)));
    assert!(matches!(f.addr2, Some(Dot11Addr::SourceAddress(_))));
    assert!(matches!(f.addr3, Some(Dot11Addr::BSSID(_))));

    let bytes = frame([0x08, 0x02], &[A, B, C], Some([0x00, 0x00]), &[]);
    let (_, f) = Frame::parse(&bytes).unwrap();
    assert!(matches!(f.addr1, Dot11Addr::DestinationAddress(_)));
    assert!(matches!(f.addr2, Some(Dot11Addr::BSSID(_))));
    assert!(matches!(f.addr3, Some(Dot11Addr::SourceAddress(_))));

    let bytes = frame([0x08, 0x03], &[A, B, C, D], Some([0x25, 0x01]), &[0x01]);
    let (_, f) = Frame::parse(&bytes).unwrap();
    assert!(matches!(f.addr1, Dot11Addr::ReceiverAddress(_)));
    assert!(matches!(f.addr2, Some(Dot11Addr::TransmitterAddress(_))));
    assert!(matches!(f.addr3, Some(Dot11Addr::DestinationAddress(_))));
    assert!(matches!(f.addr4, Some(Dot11Addr::SourceAddress(_))));
    assert_eq!(addr_of(f.addr4.as_ref().unwrap()), D);
    let seq = f.seq_control.unwrap();
    assert_eq!(seq.frag_num.value(), 5);
    assert_eq!(seq.seq_num.value(), 0x012);
}

#[test]
fn rts_control_frame() {
    let bytes = frame([0xB4, 0x00], &[A, B], None, &[]);
    assert_eq!(bytes.len(), 20);
    let (_, f) = Frame::parse(&bytes).unwrap();
    assert_eq!(f.fc.typ, Type::Control);
    assert_eq!(f.fc.subtype, Subtype::RequestToSend);
    assert!(matches!(f.addr1, Dot11Addr::ReceiverAddress(_)));
    assert!(matches!(f.addr2, Some(Dot11Addr::TransmitterAddress(_))));
    assert!(f.addr3.is_none());
    assert!(f.seq_control.is_none());
    assert!(f.addr4.is_none());
    assert!(matches!(f.frame_body, FrameBody::Empty));
}

#[test]
fn ack_control_frame_has_one_address() {
    let bytes = frame([0xD4, 0x00], &[A], None, &[]);
    let (_, f) = Frame::parse(&bytes).unwrap();
    assert_eq!(f.fc.subtype, Subtype::ACK);
    assert!(matches!(f.addr1, Dot11Addr::ReceiverAddress(_)));
    assert!(f.addr2.is_none());
}

#[test]
fn protected_data_frame_is_encrypted() {
    let body = [1, 2, 3, 4, 5, 6, 7, 8, 9, 10];
    let bytes = frame([0x08, 0x40], &[A, B, C], Some([0x00, 0x00]), &body);
    let (_, f) = Frame::parse(&bytes).unwrap();
    assert_eq!(f.fc.flags.protected.value(), 1);
    match f.frame_body {
        FrameBody::Encrypted(blob) => assert_eq!(blob.0, body.to_vec()),
        other => panic!("expected an encrypted body, got {:?}", other),
    }
    assert_eq!(f.fcs, 0x44332211);
}

#[test]
fn frame_without_fcs_fails() {
    let mut bytes = frame([0xD4, 0x00], &[A], None, &[]);
    bytes.truncate(12);
    let e = Frame::parse(&bytes).unwrap_err();
    assert_eq!(e.errors.first().unwrap().1, ErrorKind::NeedMore);
    assert_eq!(e.errors.last().unwrap().1, ErrorKind::Context(Label::Dot11Frame));
}

fn beacon_body() -> Vec<u8> {
    let mut body = vec![1, 2, 3, 4, 5, 6, 7, 8, 0x64, 0x00, 0x80, 0x04];
    body.extend_from_slice(&[0x00, 0x04, b'T', b'e', b's', b't']);
    body.extend_from_slice(&[0x01, 0x04, 0x04, 0x08, 0x16, 0x2C]);
    body.extend_from_slice(&[0x03, 0x01, 0x06]);
    body
}

#[test]
fn beacon_with_ssid_and_rates() {
    let bytes = frame([0x80, 0x00], &[[0xFF; 6], B, B], Some([0x00, 0x00]), &beacon_body());
    let (_, f) = Frame::parse(&bytes).unwrap();
    assert_eq!(f.fc.typ, Type::Management);
    assert_eq!(f.fc.subtype, Subtype::Beacon);
    assert!(matches!(f.addr1, Dot11Addr::DestinationAddress(_)));
    let beacon = match f.frame_body {
        FrameBody::Beacon(b) => b,
        other => panic!("expected a beacon, got {:?}", other),
    };
    assert_eq!(beacon.timestamp, 0x0807060504030201);
    assert_eq!(beacon.beacon_interval, 100);
    assert_eq!(beacon.capability_info.ess.value(), 1);
    assert_eq!(beacon.capability_info.short_preamble.value(), 0);
    assert_eq!(beacon.capability_info.dsss_ofdm.value(), 1);
    assert_eq!(beacon.dynamic_fields.len(), 3);
    match &beacon.dynamic_fields[0] {
        Element::SSID(s) => {
            assert_eq!(s.ssid, "Test");
            assert_eq!(s.common, CommonFieldsElement { id: 0, len: 4 });
        },
        other => panic!("expected an SSID, got {:?}", other),
    }
    match &beacon.dynamic_fields[1] {
        Element::SupportedRates(r) => {
            assert_eq!(r.supported_rates.len(), 4);
            let labels: Vec<u8> = r.supported_rates.iter().map(|x| x.label.value()).collect();
            assert_eq!(labels, vec![2, 4, 11, 22]);
        },
        other => panic!("expected supported rates, got {:?}", other),
    }
    match &beacon.dynamic_fields[2] {
        Element::DSParameterSet(d) => assert_eq!(d.current_channel, 6),
        other => panic!("expected a DS parameter set, got {:?}", other),
    }
    assert_eq!(f.fcs, 0x44332211);
}

#[test]
fn beacon_element_list_stops_at_a_bad_element() {
    let mut body = beacon_body();
    body.extend_from_slice(&[0x03, 0x00]);
    let bytes = frame([0x80, 0x00], &[A, B, B], Some([0x00, 0x00]), &body);
    let (_, f) = Frame::parse(&bytes).unwrap();
    match f.frame_body {
        FrameBody::Beacon(b) => assert_eq!(b.dynamic_fields.len(), 3),
        other => panic!("expected a beacon, got {:?}", other),
    }
}

#[test]
fn elements_of_every_shape() {
    let (rest, e) = Element::parse(&[0xDD, 0x03, 1, 2, 3, 9]).unwrap();
    assert_eq!(rest, &[9][..]);
    assert!(matches!(e, Element::Unknown(ref u) if u.id == 0xDD && u.len == 3));

    let (_, e) = Element::parse(&[0x07, 0x09, b'U', b'S', b' ', 1, 11, 30, 36, 4, 23]).unwrap();
    match e {
        Element::Country(c) => {
            assert_eq!(c.country_string, "US ");
            assert_eq!(c.constraints.len(), 2);
            assert_eq!(c.constraints[1].first_channel_num, 36);
            assert_eq!(c.constraints[1].num_channels, 4);
            assert_eq!(c.constraints[1].max_transmit_power, 23);
        },
        other => panic!("expected a country element, got {:?}", other),
    }

    let (_, e) = Element::parse(&[0x05, 0x05, 0, 3, 0, 0xF0, 0x0F]).unwrap();
    match e {
        Element::TrafficIndicationMap(t) => {
            assert_eq!(t.dtim_period, 3);
            assert_eq!(t.partial_virtual_bitmap, vec![0xF0, 0x0F]);
        },
        other => panic!("expected a TIM, got {:?}", other),
    }

    let ibss_dfs = [0x29, 0x0B, 1, 2, 3, 4, 5, 6, 9, 36, 0x90, 40, 0x08];
    let (_, e) = Element::parse(&ibss_dfs).unwrap();
    match e {
        Element::IBSS_DFS(x) => {
            assert_eq!(x.dfs_owner.0, [1, 2, 3, 4, 5, 6]);
            assert_eq!(x.dfs_recovery_interval, 9);
            assert_eq!(x.channel_maps.len(), 2);
            assert_eq!(x.channel_maps[0].channel_num, 36);
            assert_eq!(x.channel_maps[0].channel_map.bss.value(), 1);
            assert_eq!(x.channel_maps[0].channel_map.radar.value(), 1);
            assert_eq!(x.channel_maps[1].channel_map.unmeasured.value(), 1);
        },
        other => panic!("expected IBSS DFS, got {:?}", other),
    }

    let (_, e) = Element::parse(&[0x2A, 0x01, 0xA0]).unwrap();
    match e {
        Element::ERPInfo(x) => {
            assert_eq!(x.non_erp_present.value(), 1);
            assert_eq!(x.use_protection.value(), 0);
            assert_eq!(x.barker_preamble.value(), 1);
        },
        other => panic!("expected ERP info, got {:?}", other),
    }

    let (_, e) = Element::parse(&[0x28, 0x06, 1, 2, 0x10, 0x00, 0x20, 0x00]).unwrap();
    assert!(matches!(e, Element::Quiet(ref q) if q.quiet_duration == 16 && q.quiet_offset == 32));
}

#[test]
fn element_errors() {
    // the value runs past the input
    let e = Element::parse(&[0x00, 0x05, b'a']).unwrap_err();
    assert_eq!(e.errors.first().unwrap().1, ErrorKind::NeedMore);
    assert_eq!(e.errors.last().unwrap().1, ErrorKind::Context(Label::InformationElement));
    // a DS parameter set needs one byte
    assert!(Element::parse(&[0x03, 0x00, 0x06]).is_err());
}

#[test]
fn ssid_that_is_not_utf8_falls_back() {
    let (_, e) = Element::parse(&[0x00, 0x02, 0xC3, 0x28]).unwrap();
    match e {
        Element::SSID(s) => assert_eq!(s.ssid, INVALID_SSID),
        other => panic!("expected an SSID, got {:?}", other),
    }
    let (_, e) = Element::parse(&[0x00, 0x02, 0xC3, 0xA9]).unwrap();
    match e {
        Element::SSID(s) => assert_eq!(s.ssid, "\u{e9}"),
        other => panic!("expected an SSID, got {:?}", other),
    }
}

#[test]
fn deauthentication_and_disassociation_reasons() {
    let bytes = frame([0xC0, 0x00], &[A, B, C], Some([0x00, 0x00]), &[0x04, 0x00]);
    let (_, f) = Frame::parse(&bytes).unwrap();
    match f.frame_body {
        FrameBody::Deauthentication(d) => {
            assert_eq!(d.reason_code, Some(ReasonCode::Inactive));
            assert_eq!(d.reason_text(), "Inactivity timer expired and station was disassociated");
        },
        other => panic!("expected deauthentication, got {:?}", other),
    }
    let bytes = frame([0xA0, 0x00], &[A, B, C], Some([0x00, 0x00]), &[0x63, 0x00]);
    let (_, f) = Frame::parse(&bytes).unwrap();
    match f.frame_body {
        FrameBody::Disassociation(d) => {
            assert_eq!(d.reason_code, None);
            assert_eq!(d.reason_text(), "Unknown reason code");
        },
        other => panic!("expected disassociation, got {:?}", other),
    }
}

#[test]
fn association_response_and_authentication() {
    let body = [0x80, 0x00, 0x00, 0x00, 0x01, 0xC0, 0x01, 0x01, 0x82];
    let bytes = frame([0x10, 0x00], &[A, B, C], Some([0x00, 0x00]), &body);
    let (_, f) = Frame::parse(&bytes).unwrap();
    match f.frame_body {
        FrameBody::AssociationResponse(r) => {
            assert_eq!(r.status_code, Some(StatusCode::Success));
            assert_eq!(r.status_text(), "Operation completed successfully");
            assert_eq!(r.association_id, 0xC001);
            assert!(matches!(r.supported_rates, Element::SupportedRates(_)));
        },
        other => panic!("expected an association response, got {:?}", other),
    }

    let body = [0x01, 0x00, 0x02, 0x00, 0x0F, 0x00, 0x10, 0x02, b'o', b'k'];
    let bytes = frame([0xB0, 0x00], &[A, B, C], Some([0x00, 0x00]), &body);
    let (_, f) = Frame::parse(&bytes).unwrap();
    match f.frame_body {
        FrameBody::Authentication(a) => {
            assert_eq!(a.auth_seq, 2);
            assert_eq!(a.status_code, Some(StatusCode::Rejected1));
            assert!(matches!(a.challenge_text, Element::ChallengeText(ref c) if c.challenge_text == "ok"));
        },
        other => panic!("expected authentication, got {:?}", other),
    }
}

#[test]
fn probe_request_needs_three_elements() {
    let body = [0x00, 0x00, 0x01, 0x01, 0x02, 0x32, 0x00];
    let bytes = frame([0x40, 0x00], &[A, B, C], Some([0x00, 0x00]), &body);
    let (_, f) = Frame::parse(&bytes).unwrap();
    assert!(matches!(f.frame_body, FrameBody::ProbeRequest(_)));

    let bytes = frame([0x40, 0x00], &[A, B, C], Some([0x00, 0x00]), &body[..4]);
    let e = Frame::parse(&bytes).unwrap_err();
    let kinds: Vec<ErrorKind> = e.errors.iter().map(|x| x.1).collect();
    assert!(kinds.contains(&ErrorKind::Context(Label::ProbeRequestBody)));
}

#[test]
fn radiotap_then_dot11() {
    let mut bytes = vec![0x00, 0x00, 0x0C, 0x00, 0x04, 0x80, 0x00, 0x00, 0x02, 0x00, 0x18, 0x00];
    bytes.extend_from_slice(&frame([0xD4, 0x00], &[A], None, &[]));
    let (rest, lf) = decode_link_frame(127, &bytes).unwrap();
    assert!(rest.is_empty());
    match lf {
        LinkFrame::RadioTap(h, f) => {
            assert_eq!(h.it_version, 0);
            assert_eq!(h.it_len, 12);
            assert_eq!(h.it_present, 0x00008004);
            assert_eq!(f.fc.subtype, Subtype::ACK);
        },
        other => panic!("expected RadioTap, got {:?}", other),
    }
    let (_, lf) = decode_link_frame(163, &bytes).unwrap();
    assert!(matches!(lf, LinkFrame::RadioTap(_, _)));
}

#[test]
fn beacon_body_leaves_the_fcs() {
    let mut b = vec![0u8; 8];
    b.extend_from_slice(&[0x64, 0x00, 0x01, 0x00]);
    b.extend_from_slice(&[0x00, 0x04, 0x54, 0x65, 0x73, 0x74]);
    b.extend_from_slice(&[0x01, 0x04, 0x04, 0x08, 0x16, 0x2C]);
    b.extend_from_slice(&[0xAA, 0xBB, 0xCC, 0xDD]);
    let (q, body) = BeaconFrameBody::parse(&b, 0).unwrap();
    assert_eq!(&b[q..], &[0xAA, 0xBB, 0xCC, 0xDD][..]);
    assert_eq!(body.beacon_interval, 100);
    assert_eq!(body.dynamic_fields.len(), 2);
    assert!(matches!(body.dynamic_fields[0], Element::SSID(ref s) if s.ssid == "Test"));
    match &body.dynamic_fields[1] {
        Element::SupportedRates(r) => {
            let labels: Vec<u8> = r.supported_rates.iter().map(|x| x.label.value()).collect();
            assert_eq!(labels, vec![2, 4, 11, 22]);
        },
        other => panic!("expected supported rates, got {:?}", other),
    }
    let (q, resp) = ProbeResponseFrameBody::parse(&b, 0).unwrap();
    assert_eq!(q, b.len() - 4);
    assert_eq!(resp.dynamic_fields.len(), 2);
    assert!(BeaconFrameBody::parse(&b[..15], 0).is_err());
}

#[test]
fn data_body_leaves_the_fcs() {
    let b = [1, 2, 3, 4, 5, 6, 0xAA, 0xBB, 0xCC, 0xDD];
    let (q, body) = DataFrameBody::parse(&b, 2);
    assert_eq!(q, 6);
    assert_eq!(body.payload.0, vec![3, 4, 5, 6]);
    let (q, body) = DataFrameBody::parse(&b[..3], 1);
    assert_eq!(q, 1);
    assert!(body.payload.0.is_empty());
}

#[test]
fn reason_and_status_texts() {
    assert_eq!(ReasonCode::describe(ReasonCode::from_u16(0)), "Reserved; unused");
    assert_eq!(ReasonCode::describe(ReasonCode::from_u16(1)), "Unspecified reason code");
    assert_eq!(ReasonCode::describe(ReasonCode::from_u16(24)), "Unknown reason code");
    assert_eq!(ReasonCode::Rejected.text(), "Proposed cipher suite rejected due to configured policy");
    assert_eq!(StatusCode::describe(StatusCode::from_u16(3)), "Unknown status code");
    assert_eq!(StatusCode::describe(StatusCode::from_u16(35)), "Reserved for future standardization work");
}
