//! Nodes of Ethernet networks.

use crate::addr::{Ipv4Addr, Ipv6Addr, MacAddr};
use crate::iface::{default_iface_name, EtherIfaceBuilder};
use crate::range::{Ipv4Range, Ipv6Range};
use crate::route::{Ipv4Route, Ipv6Route};
use vstd::prelude::*;

verus! {

/// A node representing an ethernet machine.
pub struct MachineNode<F> {
    func: F,
}

/// Create a node for a machine with an ethernet interface. This node will run the given function
/// in a network namespace with a single interface.
pub fn machine<F>(func: F) -> (r: MachineNode<F>)
    ensures
        r.func() == func,
{
    MachineNode { func }
}

impl<F> MachineNode<F> {
    /// The function the machine runs.
    pub closed spec fn func(&self) -> F {
        self.func
    }

    /// Consumes the node and returns the function the machine runs.
    pub fn into_func(self) -> (r: F)
        ensures
            r == self.func(),
    {
        self.func
    }
}

/// A `Node` representing an ethernet hub.
pub struct HubNode<C> {
    clients: C,
}

/// Create a node for an ethernet hub.
pub fn hub<C>(clients: C) -> (r: HubNode<C>)
    ensures
        r.clients() == clients,
{
    HubNode { clients }
}

impl<C> HubNode<C> {
    /// The nodes attached to the hub.
    pub closed spec fn clients(&self) -> C {
        self.clients
    }

    /// Consumes the node and returns the nodes attached to the hub.
    pub fn into_clients(self) -> (r: C)
        ensures
            r == self.clients(),
    {
        self.clients
    }
}

/// The interface of an ethernet machine with MAC address `mac_addr`. Given an IPv4 subnet, the
/// machine gets `address` in it, with the subnet's prefix length, and a route to every IPv4
/// address via `gateway`; given an IPv6 subnet, likewise with a route via `next_hop`.
pub fn machine_iface(
    mac_addr: MacAddr,
    ipv4: Option<(Ipv4Addr, Ipv4Range, Ipv4Addr)>,
    ipv6: Option<(Ipv6Addr, Ipv6Range, Ipv6Addr)>,
) -> (r: EtherIfaceBuilder)
    ensures
        r.spec_mac() == mac_addr,
        r.settings().name == default_iface_name(),
        match ipv4 {
            Some((address, range, gateway)) => {
                &&& r.settings().ipv4_addr == Some((address, range.bits()))
                &&& r.settings().ipv4_routes.len() == 1
                &&& r.settings().ipv4_routes[0].spec_destination().base() == Seq::new(
                    4,
                    |i: int| 0u8,
                )
                &&& r.settings().ipv4_routes[0].spec_destination().bits() == 0
                &&& r.settings().ipv4_routes[0].spec_gateway() == Some(gateway)
            },
            None => r.settings().ipv4_addr is None && r.settings().ipv4_routes.len() == 0,
        },
        match ipv6 {
            Some((address, range, next_hop)) => {
                &&& r.settings().ipv6_addr == Some((address, range.bits()))
                &&& r.settings().ipv6_routes.len() == 1
                &&& r.settings().ipv6_routes[0].spec_destination().base() == Seq::new(
                    16,
                    |i: int| 0u8,
                )
                &&& r.settings().ipv6_routes[0].spec_destination().bits() == 0
                &&& r.settings().ipv6_routes[0].spec_next_hop() == next_hop
            },
            None => r.settings().ipv6_addr is None && r.settings().ipv6_routes.len() == 0,
        },
{
    let mut iface = EtherIfaceBuilder::new().mac_addr(mac_addr);
    match ipv4 {
        Some((address, range, gateway)) => {
            iface = iface.ipv4_addr(address, range.netmask_prefix_length()).ipv4_route(
                Ipv4Route::new(Ipv4Range::global(), Some(gateway)),
            );
        },
        None => {},
    }
    match ipv6 {
        Some((address, range, next_hop)) => {
            iface = iface.ipv6_addr(address, range.netmask_prefix_length()).ipv6_route(
                Ipv6Route::new(Ipv6Range::global(), next_hop),
            );
        },
        None => {},
    }
    iface
}

} // verus!
