use netsim::range::Ipv6Range;
use netsim::{Ipv4Addr, Ipv4Range, Ipv6Addr};

#[test]
fn ipv4_range_clears_host_bits() {
    let r = Ipv4Range::new(Ipv4Addr::new(78, 100, 10, 1), 30);
    assert_eq!(r.base_addr(), Ipv4Addr::new(78, 100, 10, 0));
    assert_eq!(r.netmask_prefix_length(), 30);
    let r = Ipv4Range::new(Ipv4Addr::new(78, 100, 10, 7), 30);
    assert_eq!(r.base_addr(), Ipv4Addr::new(78, 100, 10, 4));
    let r = Ipv4Range::new(Ipv4Addr::new(192, 168, 255, 255), 20);
    assert_eq!(r.base_addr(), Ipv4Addr::new(192, 168, 240, 0));
}

#[test]
fn ipv4_range_prefix_edges() {
    let a = Ipv4Addr::new(1, 2, 3, 4);
    assert_eq!(Ipv4Range::new(a, 0).base_addr(), Ipv4Addr::new(0, 0, 0, 0));
    assert_eq!(Ipv4Range::new(a, 32).base_addr(), a);
    assert_eq!(Ipv4Range::new(a, 40).base_addr(), a);
    assert_eq!(Ipv4Range::new(a, 8).base_addr(), Ipv4Addr::new(1, 0, 0, 0));
}

#[test]
fn ipv4_global_range() {
    let g = Ipv4Range::global();
    assert_eq!(g.base_addr(), Ipv4Addr::new(0, 0, 0, 0));
    assert_eq!(g.netmask_prefix_length(), 0);
}

#[test]
fn ipv4_range_rebuilt_from_base_is_same() {
    let r = Ipv4Range::new(Ipv4Addr::new(10, 200, 33, 77), 19);
    assert_eq!(Ipv4Range::new(r.base_addr(), r.netmask_prefix_length()), r);
}

#[test]
fn ipv6_range_clears_host_bits() {
    let a = Ipv6Addr { octets: [0xff; 16] };
    let r = Ipv6Range::new(a, 68);
    let mut expected = [0u8; 16];
    for b in expected.iter_mut().take(8) {
        *b = 0xff;
    }
    expected[8] = 0xf0;
    assert_eq!(r.base_addr().octets(), expected);
    assert_eq!(r.netmask_prefix_length(), 68);
    assert_eq!(Ipv6Range::new(a, 128).base_addr(), a);
    assert_eq!(Ipv6Range::global().base_addr(), Ipv6Addr::unspecified());
    assert_eq!(Ipv6Range::new(r.base_addr(), 68), r);
}
