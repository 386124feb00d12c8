//! Routes installed on simulated interfaces.

use crate::addr::{Ipv4Addr, Ipv6Addr};
use crate::range::{Ipv4Range, Ipv6Range};
use vstd::prelude::*;

verus! {

/// An IPv4 route: packets for addresses in `destination` go to `gateway`, or straight out of the
/// interface when there is none.
#[derive(Clone, Copy, Debug, PartialEq, Eq)]
pub struct Ipv4Route {
    destination: Ipv4Range,
    gateway: Option<Ipv4Addr>,
}

/// An IPv6 route: packets for addresses in `destination` go to `next_hop`.
#[derive(Clone, Copy, Debug, PartialEq, Eq)]
pub struct Ipv6Route {
    destination: Ipv6Range,
    next_hop: Ipv6Addr,
}

impl Ipv4Route {
    /// The destination range.
    pub closed spec fn spec_destination(&self) -> Ipv4Range {
        self.destination
    }

    /// The gateway.
    pub closed spec fn spec_gateway(&self) -> Option<Ipv4Addr> {
        self.gateway
    }

    /// Create a new route to `destination` via `gateway`.
    pub fn new(destination: Ipv4Range, gateway: Option<Ipv4Addr>) -> (r: Ipv4Route)
        ensures
            r.spec_destination() == destination,
            r.spec_gateway() == gateway,
    {
        Ipv4Route { destination, gateway }
    }

    /// The route's destination range.
    pub fn destination(&self) -> (r: Ipv4Range)
        ensures
            r == self.spec_destination(),
    {
        self.destination
    }

    /// The route's gateway, if any.
    pub fn gateway(&self) -> (r: Option<Ipv4Addr>)
        ensures
            r == self.spec_gateway(),
    {
        self.gateway
    }
}

impl Ipv6Route {
    /// The destination range.
    pub closed spec fn spec_destination(&self) -> Ipv6Range {
        self.destination
    }

    /// The next hop.
    pub closed spec fn spec_next_hop(&self) -> Ipv6Addr {
        self.next_hop
    }

    /// Create a new route to `destination` via `next_hop`.
    pub fn new(destination: Ipv6Range, next_hop: Ipv6Addr) -> (r: Ipv6Route)
        ensures
            r.spec_destination() == destination,
            r.spec_next_hop() == next_hop,
    {
        Ipv6Route { destination, next_hop }
    }

    /// The route's destination range.
    pub fn destination(&self) -> (r: Ipv6Range)
        ensures
            r == self.spec_destination(),
    {
        self.destination
    }

    /// The route's next hop.
    pub fn next_hop(&self) -> (r: Ipv6Addr)
        ensures
            r == self.spec_next_hop(),
    {
        self.next_hop
    }
}

/// Errors returned when adding a route. The operating system's error is held as its error
/// number.
#[derive(Clone, Copy, Debug, PartialEq, Eq)]
pub enum AddRouteError {
    /// Process file descriptor limit hit
    ProcessFileDescriptorLimit(i32),
    /// System file descriptor limit hit
    SystemFileDescriptorLimit(i32),
    /// Interface name contains an interior NUL byte
    NameContainsNul,
}

} // verus!
