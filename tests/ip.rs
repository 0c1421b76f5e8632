use netparse::icmp::{self, DestinationUnreachable, Echo, Header, TimeExceeded, Type};
use netparse::ip::{Payload, Protocol};
use netparse::ipv4;
use netparse::ipv6;
use netparse::tcp::{self, Options};
use netparse::udp::Datagram;

fn ipv4_header(protocol: u8, ihl: u8) -> Vec<u8> {
    let mut v = vec![
        0x40 | ihl, 0xB9, 0x00, 0x40, 0x12, 0x34, 0x5F, 0xFF, 0x40, protocol, 0xAB, 0xCD, 10, 0,
        0, 1, 10, 0, 0, 2,
    ];
    for _ in 5..ihl {
        v.extend_from_slice(&[1, 1, 1, 1]);
    }
    v
}

#[test]
fn ipv4_header_bit_fields() {
    let mut bytes = ipv4_header(0x99, 5);
    bytes.extend_from_slice(&[7, 7]);
    let (rest, p) = ipv4::Packet::parse(&bytes).unwrap();
    assert_eq!(p.version.value(), 4);
    assert_eq!(p.ihl.value(), 5);
    assert_eq!(p.dscp.value(), 0xB9 >> 2);
    assert_eq!(p.ecn.value(), 0xB9 & 3);
    assert_eq!(p.length, 64);
    assert_eq!(p.identification, 0x1234);
    assert_eq!(p.flags.value(), 0b010);
    assert_eq!(p.fragment_offset.value(), 0x1FFF);
    assert_eq!(p.ttl, 64);
    assert_eq!(p.checksum, 0xABCD);
    assert_eq!(p.protocol, Some(Protocol::Unknown));
    assert!(matches!(p.payload, Payload::Unknown));
    assert_eq!(rest, &[7, 7][..]);
}

#[test]
fn ipv4_options_are_skipped() {
    let mut bytes = ipv4_header(17, 6);
    bytes.extend_from_slice(&[0x00, 0x35, 0x04, 0x00, 0x00, 0x0A, 0x00, 0x00, 0xEE]);
    let (rest, p) = ipv4::Packet::parse(&bytes).unwrap();
    assert!(rest.is_empty());
    match p.payload {
        Payload::UDP(d) => {
            assert_eq!(d.src_port, 53);
            assert_eq!(d.dst_port, 1024);
            assert_eq!(d.len, 10);
            assert_eq!(d.payload.0, vec![0xEE]);
        },
        other => panic!("expected UDP, got {:?}", other),
    }
}

#[test]
fn tcp_syn_with_mss_option() {
    let mut bytes = ipv4_header(6, 5);
    bytes.extend_from_slice(&[
        0x1F, 0x90, 0xC3, 0x50, 0x00, 0x00, 0x00, 0x01, 0x00, 0x00, 0x00, 0x00, 0x60, 0x02, 0xFF,
        0xFF, 0x12, 0x34, 0x00, 0x00, 0x02, 0x04, 0x05, 0xB4, 0xDE, 0xAD,
    ]);
    let (rest, p) = ipv4::Packet::parse(&bytes).unwrap();
    assert!(rest.is_empty());
    let t = match p.payload {
        Payload::TCP(t) => t,
        other => panic!("expected TCP, got {:?}", other),
    };
    assert_eq!(t.src_port, 8080);
    assert_eq!(t.dst_port, 50000);
    assert_eq!(t.seq_num, 1);
    assert_eq!(t.ack_num, 0);
    assert_eq!(t.offset.value(), 6);
    assert_eq!(t.syn.value(), 1);
    assert_eq!(t.ack.value(), 0);
    assert_eq!(t.fin.value(), 0);
    assert_eq!(t.window_size, 0xFFFF);
    assert_eq!(t.checksum, 0x1234);
    match t.options {
        Options::Data(d) => {
            assert_eq!(d.kind, 2);
            assert_eq!(d.len, 4);
            assert_eq!(d.data.0, vec![0x05, 0xB4]);
        },
        other => panic!("expected an MSS option, got {:?}", other),
    }
    assert_eq!(t.payload.0, vec![0xDE, 0xAD]);
}

#[test]
fn tcp_no_op_option_and_plain_header() {
    let seg = [
        0x00, 0x50, 0x00, 0x51, 0, 0, 0, 9, 0, 0, 0, 7, 0x60, 0x11, 0x01, 0x00, 0, 0, 0, 0, 0x01,
        0x01, 0x01, 0x01,
    ];
    let (rest, t) = tcp::Packet::parse(&seg).unwrap();
    assert!(rest.is_empty());
    assert_eq!(t.ack.value(), 1);
    assert_eq!(t.fin.value(), 1);
    assert!(matches!(t.options, Options::NoData(ref n) if n.kind == 1));
    assert!(t.payload.0.is_empty());

    let plain = [0x00, 0x50, 0x00, 0x51, 0, 0, 0, 9, 0, 0, 0, 7, 0x50, 0x18, 0x01, 0x00, 0, 0, 0, 0, 0x41];
    let (_, t) = tcp::Packet::parse(&plain).unwrap();
    assert!(matches!(t.options, Options::Empty));
    assert_eq!(t.psh.value(), 1);
    assert_eq!(t.payload.0, vec![0x41]);
}

#[test]
fn tcp_option_longer_than_its_area_fails() {
    let seg = [
        0x00, 0x50, 0x00, 0x51, 0, 0, 0, 9, 0, 0, 0, 7, 0x60, 0x02, 0x01, 0x00, 0, 0, 0, 0, 0x03,
        0x09, 0x00, 0x00, 0, 0, 0, 0, 0, 0,
    ];
    assert!(tcp::Packet::parse(&seg).is_err());
}

#[test]
fn udp_datagram_consumes_the_rest() {
    let d = [0x00, 0x44, 0x00, 0x43, 0x00, 0x0B, 0x12, 0x34, 1, 2, 3];
    let (rest, u) = Datagram::parse(&d).unwrap();
    assert!(rest.is_empty());
    assert_eq!(u.src_port, 68);
    assert_eq!(u.dst_port, 67);
    assert_eq!(u.len, 11);
    assert_eq!(u.checksum, 0x1234);
    assert_eq!(u.payload.0, vec![1, 2, 3]);
    assert!(Datagram::parse(&d[..7]).is_err());
}

#[test]
fn icmp_echo_request() {
    let m = [0x08, 0x00, 0xF7, 0xFC, 0x00, 0x01, 0x00, 0x02, 0x61, 0x62];
    let (rest, p) = icmp::Packet::parse(&m).unwrap();
    assert!(rest.is_empty());
    assert_eq!(p.typ, Type::EchoRequest);
    assert_eq!(p.checksum, 0xF7FC);
    assert_eq!(p.header, Header::EchoRequest(Echo { identifier: 1, sequence_number: 2 }));
    assert_eq!(p.payload.0, vec![0x61, 0x62]);
}

#[test]
fn icmp_other_types() {
    let m = [0x03, 0x01, 0x00, 0x00, 0xDE, 0xAD, 0xBE, 0xEF];
    let (_, p) = icmp::Packet::parse(&m).unwrap();
    assert_eq!(p.typ, Type::DestinationUnreachable(DestinationUnreachable::HostUnreachable));
    assert_eq!(p.header, Header::Other(0xDEADBEEF));
    assert_eq!(Type::from((11, 0)), Type::TimeExceeded(TimeExceeded::TTLExpired));
    assert_eq!(Type::from((11, 1)), Type::TimeExceeded(TimeExceeded::Other(1)));
    assert_eq!(Type::from((0, 0)), Type::EchoReply);
    assert_eq!(Type::from((42, 7)), Type::Other(42, 7));
    assert_eq!(DestinationUnreachable::from(3), DestinationUnreachable::Other(3));
}

#[test]
fn ipv6_udp() {
    let mut bytes = vec![0x6A, 0xB1, 0x23, 0x45, 0x00, 0x09, 17, 255];
    bytes.extend_from_slice(&[0xFE, 0x80, 0, 0, 0, 0, 0, 0, 0, 0, 0, 0, 0, 0, 0, 1]);
    bytes.extend_from_slice(&[0xFF, 0x02, 0, 0, 0, 0, 0, 0, 0, 0, 0, 0, 0, 0, 0, 0xFB]);
    bytes.extend_from_slice(&[0x14, 0xE9, 0x14, 0xE9, 0x00, 0x09, 0x00, 0x00, 0x7A]);
    let (rest, p) = ipv6::Packet::parse(&bytes).unwrap();
    assert!(rest.is_empty());
    assert_eq!(p.version.value(), 6);
    assert_eq!(p.traffic_class, 0xAB);
    assert_eq!(p.flow_label.value(), 0x12345);
    assert_eq!(p.payload_len, 9);
    assert_eq!(p.protocol, Some(Protocol::UDP));
    assert_eq!(p.ttl, 255);
    assert_eq!(p.src.0[0], 0xFE);
    assert_eq!(p.dst.0[15], 0xFB);
    assert!(matches!(p.payload, Payload::UDP(ref d) if d.src_port == 5353 && d.payload.0 == vec![0x7A]));
}
