use netsim::wire::{filter_ipv4, filter_ipv6, IPV4_HEADER_LEN, IPV6_HEADER_LEN};
use netsim::{IpAddr, IpPacket, Ipv4Addr, Ipv4Packet, Ipv6Packet};

fn ipv4_bytes() -> Vec<u8> {
    let mut b = vec![0u8; IPV4_HEADER_LEN + 4];
    b[0] = 0x45;
    b[12..16].copy_from_slice(&[10, 0, 0, 1]);
    b[16..20].copy_from_slice(&[78, 100, 10, 2]);
    b
}

fn ipv6_bytes() -> Vec<u8> {
    let mut b = vec![0u8; IPV6_HEADER_LEN];
    b[0] = 0x60;
    for i in 0..16 {
        b[8 + i] = i as u8;
        b[24 + i] = 0xf0 | i as u8;
    }
    b
}

#[test]
fn ipv4_address_new_and_octets() {
    assert_eq!(Ipv4Addr::new(1, 2, 3, 4).octets(), [1, 2, 3, 4]);
    assert_eq!(Ipv4Addr::unspecified().octets(), [0, 0, 0, 0]);
}

#[test]
fn from_bytes_picks_family_by_version() {
    let p = IpPacket::from_bytes(ipv4_bytes());
    assert!(matches!(p, IpPacket::V4(_)));
    let p = IpPacket::from_bytes(ipv6_bytes());
    assert!(matches!(p, IpPacket::V6(_)));
}

#[test]
fn from_bytes_into_bytes_roundtrip() {
    let b = ipv4_bytes();
    assert_eq!(IpPacket::from_bytes(b.clone()).into_bytes(), b);
    let b = ipv6_bytes();
    assert_eq!(IpPacket::from_bytes(b.clone()).as_bytes(), &b[..]);
}

#[test]
fn valid_bytes_edge_cases() {
    assert!(!IpPacket::is_valid_bytes(&[]));
    assert!(!IpPacket::is_valid_bytes(&[0x50]));
    assert!(!IpPacket::is_valid_bytes(&[0x05]));
    assert!(IpPacket::is_valid_bytes(&[0x45]));
    assert!(IpPacket::is_valid_bytes(&[0x6f]));
}

#[test]
fn addresses_of_ipv4_packet() {
    let p = IpPacket::from_bytes(ipv4_bytes());
    assert_eq!(p.source_ip(), IpAddr::V4(Ipv4Addr::new(10, 0, 0, 1)));
    assert_eq!(p.dest_ip(), IpAddr::V4(Ipv4Addr::new(78, 100, 10, 2)));
}

#[test]
fn addresses_of_ipv6_packet() {
    let p = IpPacket::from_bytes(ipv6_bytes());
    match (p.source_ip(), p.dest_ip()) {
        (IpAddr::V6(s), IpAddr::V6(d)) => {
            let expected_s: Vec<u8> = (0..16).collect();
            let expected_d: Vec<u8> = (0..16).map(|i| 0xf0 | i).collect();
            assert_eq!(s.octets().to_vec(), expected_s);
            assert_eq!(d.octets().to_vec(), expected_d);
        }
        other => panic!("unexpected addresses: {:?}", other),
    }
}

#[test]
fn to_ipv4_and_to_ipv6_packet() {
    let v4 = IpPacket::from_bytes(ipv4_bytes());
    assert_eq!(v4.to_ipv4_packet(), Some(Ipv4Packet::from_bytes(ipv4_bytes())));
    assert_eq!(v4.to_ipv6_packet(), None);
    let v6 = IpPacket::from_bytes(ipv6_bytes());
    assert_eq!(v6.to_ipv6_packet(), Some(Ipv6Packet::from_bytes(ipv6_bytes())));
    assert_eq!(v6.to_ipv4_packet(), None);
}

#[test]
fn ipv4_adapter_drops_ipv6() {
    let v4 = Ipv4Packet::from_bytes(ipv4_bytes());
    assert_eq!(filter_ipv4(IpPacket::V4(v4.clone())), Some(v4));
    assert_eq!(filter_ipv4(IpPacket::from_bytes(ipv6_bytes())), None);
}

#[test]
fn ipv6_adapter_drops_ipv4() {
    let v6 = Ipv6Packet::from_bytes(ipv6_bytes());
    assert_eq!(filter_ipv6(IpPacket::V6(v6.clone())), Some(v6));
    assert_eq!(filter_ipv6(IpPacket::from_bytes(ipv4_bytes())), None);
}

#[test]
fn clone_keeps_bytes() {
    let p = IpPacket::from_bytes(ipv4_bytes());
    assert_eq!(p.clone(), p);
}
