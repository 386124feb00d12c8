use netsim::addr::MacAddr;
use netsim::iface::IfaceBuilder;
use netsim::node;
use netsim::{
    EtherIfaceBuilder, IpIfaceBuilder, Ipv4Addr, Ipv4Range, Ipv4Route, Ipv6Addr, Ipv6Route,
};
use netsim::range::Ipv6Range;

#[test]
fn default_settings() {
    let b = IfaceBuilder::new();
    assert_eq!(b.name, "netsim");
    assert!(b.ipv4_addr.is_none() && b.ipv6_addr.is_none());
    assert!(b.ipv4_routes.is_empty() && b.ipv6_routes.is_empty());
    let e = EtherIfaceBuilder::new();
    assert_eq!(e.iface_settings().name, "netsim");
    let i = IpIfaceBuilder::default();
    assert_eq!(i.iface_settings().name, "netsim");
}

#[test]
fn ether_builder_setters() {
    let mac = MacAddr { octets: [2, 0, 0, 0, 0, 1] };
    let route = Ipv4Route::new(Ipv4Range::global(), Some(Ipv4Addr::new(10, 0, 0, 1)));
    let b = EtherIfaceBuilder::new()
        .name("foo")
        .mac_addr(mac)
        .ipv4_addr(Ipv4Addr::new(10, 0, 0, 2), 24)
        .ipv6_addr(Ipv6Addr::unspecified(), 64)
        .ipv4_route(route)
        .ipv6_route(Ipv6Route::new(Ipv6Range::global(), Ipv6Addr::unspecified()));
    assert_eq!(b.mac(), mac);
    let s = b.iface_settings();
    assert_eq!(s.name, "foo");
    assert_eq!(s.ipv4_addr, Some((Ipv4Addr::new(10, 0, 0, 2), 24)));
    assert_eq!(s.ipv6_addr, Some((Ipv6Addr::unspecified(), 64)));
    assert_eq!(s.ipv4_routes, vec![route]);
    assert_eq!(s.ipv6_routes.len(), 1);
}

#[test]
fn ip_builder_routes_keep_order() {
    let r1 = Ipv4Route::new(Ipv4Range::new(Ipv4Addr::new(10, 0, 0, 0), 8), None);
    let r2 = Ipv4Route::new(Ipv4Range::global(), Some(Ipv4Addr::new(10, 0, 0, 1)));
    let b = IpIfaceBuilder::new().name("tun0".to_string()).ipv4_route(r1).ipv4_route(r2);
    let s = b.into_settings();
    assert_eq!(s.name, "tun0");
    assert_eq!(s.ipv4_routes, vec![r1, r2]);
}

#[test]
fn ipv4_machine_interface() {
    let range = Ipv4Range::new(Ipv4Addr::new(78, 100, 10, 0), 30);
    let b = node::ipv4::machine_iface(Ipv4Addr::new(78, 100, 10, 2), range);
    let s = b.iface_settings();
    assert_eq!(s.ipv4_addr, Some((Ipv4Addr::new(78, 100, 10, 2), 30)));
    assert_eq!(s.ipv4_routes, vec![Ipv4Route::new(Ipv4Range::global(), None)]);
    assert!(s.ipv6_addr.is_none());
}

#[test]
fn ipv6_machine_interface() {
    let a = Ipv6Addr { octets: [0xfd; 16] };
    let range = Ipv6Range::new(a, 64);
    let b = node::ipv6::machine_iface(a, range);
    let s = b.iface_settings();
    assert_eq!(s.ipv6_addr, Some((a, 64)));
    assert_eq!(s.ipv6_routes, vec![Ipv6Route::new(Ipv6Range::global(), Ipv6Addr::unspecified())]);
}

#[test]
fn ether_machine_interface() {
    let mac = MacAddr { octets: [2, 1, 1, 1, 1, 1] };
    let range = Ipv4Range::new(Ipv4Addr::new(10, 1, 0, 0), 16);
    let gateway = Ipv4Addr::new(10, 1, 0, 1);
    let b = node::ether::machine_iface(mac, Some((Ipv4Addr::new(10, 1, 2, 3), range, gateway)), None);
    assert_eq!(b.mac(), mac);
    let s = b.iface_settings();
    assert_eq!(s.ipv4_addr, Some((Ipv4Addr::new(10, 1, 2, 3), 16)));
    assert_eq!(s.ipv4_routes, vec![Ipv4Route::new(Ipv4Range::global(), Some(gateway))]);
    assert!(s.ipv6_addr.is_none() && s.ipv6_routes.is_empty());
    let b = node::ether::machine_iface(mac, None, None);
    assert!(b.iface_settings().ipv4_routes.is_empty());
}

#[test]
fn random_mac_addresses_differ() {
    let macs: Vec<MacAddr> = (0..8).map(|_| MacAddr::random()).collect();
    assert!(macs.iter().any(|m| *m != macs[0]));
}

#[test]
fn router_plan_layout() {
    let ranges = vec![
        Ipv4Range::new(Ipv4Addr::new(10, 0, 0, 0), 10),
        Ipv4Range::new(Ipv4Addr::new(10, 64, 0, 0), 10),
        Ipv4Range::new(Ipv4Addr::new(10, 128, 0, 0), 10),
    ];
    let plan = node::ipv4::router_plan(&ranges);
    assert_eq!(plan.router_addr, Ipv4Addr::new(10, 0, 0, 0));
    assert_eq!(plan.client_ranges, ranges[1..].to_vec());
    assert_eq!(
        plan.client_routes,
        vec![Ipv4Route::new(ranges[1], None), Ipv4Route::new(ranges[2], None)]
    );
    assert_eq!(plan.uplink_route, Ipv4Route::new(Ipv4Range::global(), None));
    let plan = node::ipv4::router_plan(&ranges[..1].to_vec());
    assert!(plan.client_ranges.is_empty() && plan.client_routes.is_empty());
}
