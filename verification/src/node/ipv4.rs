//! Nodes of IPv4 networks.

use crate::addr::Ipv4Addr;
use crate::iface::{default_iface_name, IpIfaceBuilder};
use crate::range::Ipv4Range;
use crate::route::Ipv4Route;
use vstd::prelude::*;

verus! {

/// A node representing an Ipv4 machine.
pub struct MachineNode<F> {
    func: F,
}

/// Create a node for an Ipv4 machine. This node will run the given function in a network
/// namespace with a single interface in a separate thread of its own.
pub fn machine<F>(func: F) -> (r: MachineNode<F>)
    ensures
        r.func() == func,
{
    MachineNode { func }
}

impl<F> MachineNode<F> {
    /// The function the machine runs.
    pub closed spec fn func(&self) -> F {
        self.func
    }

    /// Consumes the node and returns the function the machine runs.
    pub fn into_func(self) -> (r: F)
        ensures
            r == self.func(),
    {
        self.func
    }
}

/// A node representing an Ipv4 router.
pub struct RouterNode<C> {
    clients: C,
}

/// Spawns a bunch of sub-nodes and routes packets between them.
pub fn router<C>(clients: C) -> (r: RouterNode<C>)
    ensures
        r.clients() == clients,
{
    RouterNode { clients }
}

impl<C> RouterNode<C> {
    /// The nodes behind the router.
    pub closed spec fn clients(&self) -> C {
        self.clients
    }

    /// Consumes the node and returns the nodes behind the router.
    pub fn into_clients(self) -> (r: C)
        ensures
            r == self.clients(),
    {
        self.clients
    }
}

/// The interface of an IPv4 machine given `address` in `range`: that address with the range's
/// prefix length, and a route to every IPv4 address straight out of the interface.
pub fn machine_iface(address: Ipv4Addr, range: Ipv4Range) -> (r: IpIfaceBuilder)
    ensures
        r.settings().name == default_iface_name(),
        r.settings().ipv4_addr == Some((address, range.bits())),
        r.settings().ipv6_addr is None,
        r.settings().ipv4_routes.len() == 1,
        r.settings().ipv4_routes[0].spec_destination().base() == Seq::new(4, |i: int| 0u8),
        r.settings().ipv4_routes[0].spec_destination().bits() == 0,
        r.settings().ipv4_routes[0].spec_gateway() is None,
        r.settings().ipv6_routes.len() == 0,
{
    IpIfaceBuilder::new().ipv4_addr(address, range.netmask_prefix_length()).ipv4_route(
        Ipv4Route::new(Ipv4Range::global(), None),
    )
}

/// How a router node lays out the subnets of its range.
pub struct RouterPlan {
    /// The router's own address.
    pub router_addr: Ipv4Addr,
    /// The subnet of each client, in order.
    pub client_ranges: Vec<Ipv4Range>,
    /// The route towards each client, in order.
    pub client_routes: Vec<Ipv4Route>,
    /// The route out of the router's network, towards every IPv4 address.
    pub uplink_route: Ipv4Route,
}

/// The layout of a router node with `ranges.len() - 1` clients, where `ranges` is the router's
/// range split into one subnet more than it has clients: the router takes the base address of
/// the first subnet, client `i` gets subnet `i + 1` and a route to it with no gateway, and the
/// uplink gets a route to every IPv4 address with no gateway.
pub fn router_plan(ranges: &Vec<Ipv4Range>) -> (r: RouterPlan)
    requires
        ranges@.len() >= 1,
    ensures
        r.router_addr@ == ranges@[0].base(),
        r.client_ranges@ == ranges@.drop_first(),
        r.client_routes@.len() == ranges@.len() - 1,
        forall|i: int|
            0 <= i < r.client_routes@.len() ==> (#[trigger] r.client_routes@[i]).spec_destination()
                == ranges@[i + 1] && r.client_routes@[i].spec_gateway() is None,
        r.uplink_route.spec_destination().base() == Seq::new(4, |i: int| 0u8),
        r.uplink_route.spec_destination().bits() == 0,
        r.uplink_route.spec_gateway() is None,
{
    let router_addr = ranges[0].base_addr();
    let mut client_ranges: Vec<Ipv4Range> = Vec::new();
    let mut client_routes: Vec<Ipv4Route> = Vec::new();
    let mut i: usize = 1;
    while i < ranges.len()
        invariant
            1 <= i <= ranges@.len(),
            client_ranges@ == ranges@.subrange(1, i as int),
            client_routes@.len() == i - 1,
            forall|j: int|
                0 <= j < client_routes@.len() ==> (#[trigger] client_routes@[j]).spec_destination()
                    == ranges@[j + 1] && client_routes@[j].spec_gateway() is None,
        decreases ranges@.len() - i,
    {
        let range = ranges[i];
        client_ranges.push(range);
        client_routes.push(Ipv4Route::new(range, None));
        i = i + 1;
        assert(client_ranges@ =~= ranges@.subrange(1, i as int));
    }
    assert(client_ranges@ =~= ranges@.drop_first());
    RouterPlan {
        router_addr,
        client_ranges,
        client_routes,
        uplink_route: Ipv4Route::new(Ipv4Range::global(), None),
    }
}

} // verus!
