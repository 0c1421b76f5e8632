use netparse::blob::Blob;
use netparse::datalink::Addr;
use netparse::ethernet::Frame;
use netparse::ipv4;
use netparse::ipv6;
use netparse::parse::{Error, ErrorKind, Label};

#[test]
fn mac_address_text() {
    assert_eq!(Addr([0x01, 0x00, 0x5E, 0x00, 0x00, 0xFB]).to_string(), "01:00:5E:00:00:FB");
    assert_eq!(Addr([0xAA, 0xBB, 0xCC, 0xDD, 0xEE, 0xFF]).to_string(), "AA:BB:CC:DD:EE:FF");
}

#[test]
fn ipv4_address_text() {
    assert_eq!(ipv4::Addr([192, 168, 1, 67]).to_string(), "192.168.1.67");
    assert_eq!(ipv4::Addr([0, 10, 255, 7]).to_string(), "0.10.255.7");
}

#[test]
fn ipv6_address_text() {
    let mut a = [0u8; 16];
    a[0] = 0xFE;
    a[1] = 0x80;
    a[15] = 0x01;
    assert_eq!(
        ipv6::Addr(a).to_string(),
        "FE80:0000:0000:0000:0000:0000:0000:0001"
    );
}

#[test]
fn blob_description() {
    assert_eq!(Blob::new(&[1, 2, 0xAB]).describe(), "[01 02 ab]");
    assert_eq!(Blob(vec![0xde, 0xad]).describe(), "[de ad]");
    assert_eq!(Blob::new(&[]).describe(), "[]");
    let long: Vec<u8> = (0..25).collect();
    assert_eq!(
        Blob::new(&long).describe(),
        "[00 01 02 03 04 05 06 07 08 09 0a 0b 0c 0d 0e 0f 10 11 12 13 + 5 bytes]"
    );
}

#[test]
fn error_chain_rendering() {
    let e = Frame::parse(&[0x0C, 0x80, 0x01]).unwrap_err();
    let text = e.render(&[0x0C, 0x80, 0x01]);
    assert_eq!(
        text,
        "...in Ethernet frame at offset 0\n    0C 80 01 \n    ^^ ^^ ^^ \n\
         error: need more input at offset 0\n    0C 80 01 \n    ^^ ^^ ^^ \n"
    );
}

#[test]
fn error_rendering_marks_only_unread_bytes() {
    let e = Error::new(2, ErrorKind::Unaligned).context(1, Label::Ipv4Frame);
    let text = e.render(&[1, 2, 3, 4]);
    assert_eq!(
        text,
        "...in IPv4 frame at offset 1\n    01 02 03 04 \n       ^^ ^^ ^^ \n\
         error: bit field ends inside a byte at offset 2\n    01 02 03 04 \n          ^^ ^^ \n"
    );
    let e = Error::new(0, ErrorKind::UnsupportedLinkType(300));
    assert_eq!(e.render(&[]), "error: unsupported link type 300 at offset 0\n    \n    \n");
}
