//! Nodes of IPv6 networks.

use crate::addr::Ipv6Addr;
use crate::iface::{default_iface_name, IpIfaceBuilder};
use crate::range::Ipv6Range;
use crate::route::Ipv6Route;
use vstd::prelude::*;

verus! {

/// A node representing an Ipv6 machine.
pub struct MachineNode<F> {
    func: F,
}

/// Create a node for an Ipv6 machine. This node will run the given function in a network
/// namespace with a single interface.
pub fn machine<F>(func: F) -> (r: MachineNode<F>)
    ensures
        r.func() == func,
{
    MachineNode { func }
}

impl<F> MachineNode<F> {
    /// The function the machine runs.
    pub closed spec fn func(&self) -> F {
        self.func
    }

    /// Consumes the node and returns the function the machine runs.
    pub fn into_func(self) -> (r: F)
        ensures
            r == self.func(),
    {
        self.func
    }
}

/// The interface of an IPv6 machine given `address` in `range`: that address with the range's
/// prefix length, and a route to every IPv6 address via the unspecified address `::`.
pub fn machine_iface(address: Ipv6Addr, range: Ipv6Range) -> (r: IpIfaceBuilder)
    ensures
        r.settings().name == default_iface_name(),
        r.settings().ipv6_addr == Some((address, range.bits())),
        r.settings().ipv4_addr is None,
        r.settings().ipv6_routes.len() == 1,
        r.settings().ipv6_routes[0].spec_destination().base() == Seq::new(16, |i: int| 0u8),
        r.settings().ipv6_routes[0].spec_destination().bits() == 0,
        r.settings().ipv6_routes[0].spec_next_hop()@ == Seq::new(16, |i: int| 0u8),
        r.settings().ipv4_routes.len() == 0,
{
    IpIfaceBuilder::new().ipv6_addr(address, range.netmask_prefix_length()).ipv6_route(
        Ipv6Route::new(Ipv6Range::global(), Ipv6Addr::unspecified()),
    )
}

} // verus!
