use netparse::arp::{HardwareType, Operation};
use netparse::datalink::{Addr, EtherType, Payload};
use netparse::ethernet::Frame;
use netparse::ip::{self, Protocol};
use netparse::parse::{ErrorKind, Label};

const TEST_FRAME: &[u8] = &[
    0x01, 0x00, 0x5E, 0x00, 0x00, 0xFB, 0x58, 0x00, 0xE3, 0x1D, 0x1E, 0x6B, 0x08, 0x00, 0x45,
    0x00, 0x00, 0x3D, 0x62, 0xB8, 0x00, 0x00, 0x01, 0x11, 0xB4, 0x11, 0xC0, 0xA8, 0x01, 0x43,
    0xE0, 0x00, 0x00, 0xFB, 0x14, 0xE9, 0x14, 0xE9, 0x00, 0x29, 0xAE, 0x6D, 0x00, 0x00, 0x00,
    0x00, 0x00, 0x01, 0x00, 0x00, 0x00, 0x00, 0x00, 0x00, 0x04, 0x5F, 0x69, 0x70, 0x70, 0x04,
    0x5F, 0x74, 0x63, 0x70, 0x05, 0x6C, 0x6F, 0x63, 0x61, 0x6C, 0x00, 0x00, 0x0C, 0x80, 0x01,
];

#[test]
fn ethernet_assert_valid_frame() {
    let frame = Frame::parse(TEST_FRAME).unwrap().1;
    let dst_addr = Addr::new(&TEST_FRAME[..6]);
    let src_addr = Addr::new(&TEST_FRAME[6..12]);

    assert_eq!(frame.dst, dst_addr);
    assert_eq!(frame.src, src_addr);
    assert_eq!(frame.ether_type.unwrap(), EtherType::IPv4);
}

#[test]
#[should_panic]
fn ethernet_assert_invalid_frame() {
    let frame_len = TEST_FRAME.len();
    Frame::parse(&TEST_FRAME[frame_len - 4..frame_len - 1]).unwrap().1;
}

#[test]
fn frame_assert_valid_frame() {
    let frame = Frame::parse(TEST_FRAME).unwrap().1;
    let dst_addr = Addr::new(&TEST_FRAME[..6]);
    let src_addr = Addr::new(&TEST_FRAME[6..12]);

    assert_eq!(frame.dst, dst_addr);
    assert_eq!(frame.src, src_addr);
    assert_eq!(frame.ether_type.unwrap(), EtherType::IPv4);
}

#[test]
#[should_panic]
fn frame_assert_invalid_frame() {
    let frame_len = TEST_FRAME.len();
    Frame::parse(&TEST_FRAME[frame_len - 4..frame_len - 1]).unwrap().1;
}

#[test]
fn mdns_query_decodes_through_udp() {
    let (rest, frame) = Frame::parse(TEST_FRAME).unwrap();
    assert!(rest.is_empty());
    assert_eq!(frame.dst, Addr([0x01, 0x00, 0x5E, 0x00, 0x00, 0xFB]));
    assert_eq!(frame.src, Addr([0x58, 0x00, 0xE3, 0x1D, 0x1E, 0x6B]));
    assert_eq!(frame.ether_type, Some(EtherType::IPv4));
    let packet = match frame.payload {
        Some(Payload::IPv4(p)) => p,
        other => panic!("expected IPv4, got {:?}", other),
    };
    assert_eq!(packet.version.value(), 4);
    assert_eq!(packet.ihl.value(), 5);
    assert_eq!(packet.length, 61);
    assert_eq!(packet.identification, 0x62B8);
    assert_eq!(packet.ttl, 1);
    assert_eq!(packet.checksum, 0xB411);
    assert_eq!(packet.src.0, [192, 168, 1, 67]);
    assert_eq!(packet.dst.0, [224, 0, 0, 251]);
    assert_eq!(packet.protocol, Some(Protocol::UDP));
    let datagram = match packet.payload {
        ip::Payload::UDP(d) => d,
        other => panic!("expected UDP, got {:?}", other),
    };
    assert_eq!(datagram.src_port, 5353);
    assert_eq!(datagram.dst_port, 5353);
    assert_eq!(datagram.len, 41);
    assert_eq!(datagram.checksum, 0xAE6D);
    assert_eq!(datagram.payload.0, TEST_FRAME[42..].to_vec());
}

#[test]
fn truncated_frame_reports_chain() {
    let frame_len = TEST_FRAME.len();
    let e = Frame::parse(&TEST_FRAME[frame_len - 3..]).unwrap_err();
    assert_eq!(e.errors.first().unwrap().1, ErrorKind::NeedMore);
    assert_eq!(e.errors.last().unwrap().1, ErrorKind::Context(Label::EthernetFrame));
    assert_eq!(
        e.errors,
        vec![(0, ErrorKind::NeedMore), (0, ErrorKind::Context(Label::EthernetFrame))]
    );
    assert_eq!(Label::EthernetFrame.text(), "Ethernet frame");
}

#[test]
fn arp_who_has() {
    let bytes: Vec<u8> = vec![
        0xFF, 0xFF, 0xFF, 0xFF, 0xFF, 0xFF, 0x00, 0x11, 0x22, 0x33, 0x44, 0x55, 0x08, 0x06,
        0x00, 0x01, 0x08, 0x00, 0x06, 0x04, 0x00, 0x01, 0x00, 0x11, 0x22, 0x33, 0x44, 0x55,
        0xC0, 0xA8, 0x01, 0x01, 0x00, 0x00, 0x00, 0x00, 0x00, 0x00, 0xC0, 0xA8, 0x01, 0x02,
    ];
    assert_eq!(bytes.len(), 42);
    let (rest, frame) = Frame::parse(&bytes).unwrap();
    assert!(rest.is_empty());
    assert_eq!(frame.ether_type, Some(EtherType::ARP));
    let arp = match frame.payload {
        Some(Payload::ARP(p)) => p,
        other => panic!("expected ARP, got {:?}", other),
    };
    assert_eq!(arp.htype, Some(HardwareType::Ethernet));
    assert_eq!(arp.ptype, Some(EtherType::IPv4));
    assert_eq!(arp.hlen, 6);
    assert_eq!(arp.plen, 4);
    assert_eq!(arp.operation, Some(Operation::ARPRequest));
    assert_eq!(arp.sender_hw_addr, Addr([0x00, 0x11, 0x22, 0x33, 0x44, 0x55]));
    assert_eq!(arp.sender_ip_addr.0, [192, 168, 1, 1]);
    assert_eq!(arp.target_ip_addr.0, [192, 168, 1, 2]);
}

#[test]
fn unknown_ether_type_keeps_payload_bytes() {
    let bytes: Vec<u8> = vec![
        1, 2, 3, 4, 5, 6, 7, 8, 9, 10, 11, 12, 0x88, 0xCC, 0xAA, 0xBB,
    ];
    let (rest, frame) = Frame::parse(&bytes).unwrap();
    assert_eq!(frame.ether_type, None);
    assert!(matches!(frame.payload, Some(Payload::Unknown)));
    assert_eq!(rest, &[0xAA, 0xBB][..]);
}

#[test]
fn ipv4_payload_failure_fails_the_frame() {
    // UDP named, but only 4 bytes follow the IPv4 header.
    let bytes = TEST_FRAME[..38].to_vec();
    let e = Frame::parse(&bytes).unwrap_err();
    let kinds: Vec<ErrorKind> = e.errors.iter().map(|x| x.1).collect();
    assert_eq!(kinds[0], ErrorKind::NeedMore);
    assert!(kinds.contains(&ErrorKind::Context(Label::UdpFrame)));
    assert!(kinds.contains(&ErrorKind::Context(Label::Ipv4Frame)));
    assert_eq!(*kinds.last().unwrap(), ErrorKind::Context(Label::EthernetFrame));
}
