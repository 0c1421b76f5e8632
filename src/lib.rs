//! A packet dissector: raw captured bytes and a datalink identifier are
//! decoded into a tree of typed protocol values (Ethernet, 802.11 with
//! RadioTap, ARP, IPv4, IPv6, ICMP, TCP, UDP). Every decoder states, over the
//! input bytes, exactly when it succeeds and what each decoded field holds.
pub mod parse;
pub mod ux;
pub mod blob;
pub mod datalink;
pub mod arp;
pub mod ethernet;
pub mod ip;
pub mod ipv4;
pub mod ipv6;
pub mod tcp;
pub mod udp;
pub mod icmp;
pub mod text;
pub mod management;
pub mod data;
pub mod radiotap;
pub mod dot11;
pub mod link;
pub mod capture;
pub mod render;
