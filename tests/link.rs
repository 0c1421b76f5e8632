use netparse::data::{LLCHeader, SNAPHeader};
use netparse::datalink::{EtherType, Payload};
use netparse::ethernet::Frame;
use netparse::radiotap::RadioTapHeader;
use netparse::blob::Blob;
use netparse::capture::{Capture, Event, DEFAULT_INTERFACE};
use netparse::link::{decode_link_frame, LinkFrame};
use netparse::parse::ErrorKind;

#[test]
fn unsupported_link_type() {
    let e = decode_link_frame(9, &[1, 2, 3]).unwrap_err();
    assert_eq!(e.errors.len(), 1);
    assert_eq!(e.errors[0], (0, ErrorKind::UnsupportedLinkType(9)));
}

#[test]
fn ethernet_link_type() {
    let bytes = [1, 2, 3, 4, 5, 6, 7, 8, 9, 10, 11, 12, 0x12, 0x34, 0x55];
    let (rest, f) = decode_link_frame(1, &bytes).unwrap();
    assert_eq!(rest, &[0x55][..]);
    assert!(matches!(f, LinkFrame::Ethernet(_)));
}

#[test]
fn bare_dot11_link_type() {
    let bytes = [0xD4, 0x00, 0, 0, 1, 2, 3, 4, 5, 6, 9, 9, 9, 9];
    let (rest, f) = decode_link_frame(105, &bytes).unwrap();
    assert!(rest.is_empty());
    match f {
        LinkFrame::Dot11(d) => assert_eq!(d.fcs, 0x09090909),
        other => panic!("expected 802.11, got {:?}", other),
    }
}

#[test]
fn blob_copies_its_bytes() {
    let b = Blob::new(&[1, 2, 3]);
    assert_eq!(b.0, vec![1, 2, 3]);
    assert_eq!(b.len(), 3);
}

#[test]
fn capture_settings() {
    let mut c = Capture::new();
    assert_eq!(c.interface(), DEFAULT_INTERFACE);
    assert!(!c.wireless());
    assert!(!c.monitor());
    assert_eq!(c.filter(), "");
    c.with_wireless(true);
    assert!(c.wireless());
    assert!(c.monitor());
    c.with_interface("wlan0".to_string());
    c.with_filter("udp port 53".to_string());
    assert_eq!(c.interface(), "wlan0");
    assert_eq!(c.filter(), "udp port 53");
    let d = Capture::create_capture();
    assert_eq!(d.interface(), "eth0");
    assert_ne!(Event::Tick, Event::Key);
}

#[test]
fn llc_and_snap_headers() {
    let b = [0xAA, 0xAA, 0x03, 0x00, 0x00, 0x00, 0x86, 0xDD];
    let (i, llc) = LLCHeader::parse(&b, 0).unwrap();
    assert_eq!(i, 3);
    assert_eq!(llc, LLCHeader { dsap: 0xAA, ssap: 0xAA, ctrl: 0x03 });
    let (i, snap) = SNAPHeader::parse(&b, i).unwrap();
    assert_eq!(i, 8);
    assert_eq!(snap.ether_type, Some(EtherType::IPv6));
    assert!(SNAPHeader::parse(&b, 4).is_err());
}

#[test]
fn radiotap_header_skips_to_its_length() {
    let b = [0x00, 0x00, 0x0A, 0x00, 0x2E, 0x48, 0x00, 0x00, 0x10, 0x02, 0xFF];
    let (rest, h) = RadioTapHeader::parse(&b).unwrap();
    assert_eq!(h.it_len, 10);
    assert_eq!(h.it_present, 0x482E);
    assert_eq!(rest, &[0xFF][..]);
    let short = [0x00, 0x00, 0x20, 0x00, 0, 0, 0, 0, 0];
    assert!(RadioTapHeader::parse(&short).is_err());
}

#[test]
fn ethernet_payload_accessor() {
    let bytes = [1, 2, 3, 4, 5, 6, 7, 8, 9, 10, 11, 12, 0x12, 0x34];
    let (_, f) = Frame::parse(&bytes).unwrap();
    assert!(matches!(f.get_payload(), Some(Payload::Unknown)));
}
