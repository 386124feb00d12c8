use netsim::machine::MachineBuilder;
use netsim::{EtherIfaceBuilder, IpIfaceBuilder, IpPacket, IpPlug, Plug};

fn tagged_packet(tag: u8) -> IpPacket {
    IpPacket::from_bytes(vec![0x45, tag])
}

#[test]
fn what_one_end_sends_the_other_end_receives() {
    let (mut a, mut b) = IpPlug::new_pair();
    a.unbounded_send(tagged_packet(1)).unwrap();
    a.unbounded_send(tagged_packet(2)).unwrap();
    assert_eq!(b.receiver_mut().try_next().unwrap(), Some(tagged_packet(1)));
    assert_eq!(b.receiver_mut().try_next().unwrap(), Some(tagged_packet(2)));
    b.unbounded_send(tagged_packet(3)).unwrap();
    assert_eq!(a.receiver_mut().try_next().unwrap(), Some(tagged_packet(3)));
}

#[test]
fn split_halves_stay_connected() {
    let (a, b) = IpPlug::new_pair();
    let (tx, _rx) = a.split();
    let (_tx_b, mut rx_b) = b.split();
    tx.unbounded_send(tagged_packet(9));
    assert_eq!(rx_b.receiver_mut().try_next().unwrap(), Some(tagged_packet(9)));
}

#[test]
fn sending_to_a_dropped_plug_fails() {
    let (mut a, b) = IpPlug::new_pair();
    drop(b);
    assert!(a.unbounded_send(tagged_packet(1)).is_err());
}

#[test]
fn ip_plug_into_plug() {
    let (a, b) = IpPlug::new_pair();
    let mut plug: Plug<IpPacket> = a.into();
    let (tx, _) = b.split();
    tx.unbounded_send(tagged_packet(4));
    assert_eq!(plug.rx.try_next().unwrap(), Some(tagged_packet(4)));
}

#[test]
fn machine_builder_keeps_interfaces() {
    let (ether, _) = Plug::new_pair();
    let (ip, _) = IpPlug::new_pair();
    let m = MachineBuilder::new()
        .add_ether_iface(EtherIfaceBuilder::new(), ether)
        .add_ip_iface(IpIfaceBuilder::new(), ip);
    let (e, i) = m.into_parts();
    assert_eq!(e.len(), 1);
    assert_eq!(i.len(), 1);
}
