//! Settings of the virtual interfaces of simulated machines: TAP (Ethernet) and TUN (IP)
//! interfaces.

use crate::addr::{Ipv4Addr, Ipv6Addr, MacAddr};
use crate::route::{Ipv4Route, Ipv6Route};
use vstd::std_specs::convert::IntoSpec;
use vstd::prelude::*;

verus! {

/// The name every interface gets unless it is given another.
pub open spec fn default_iface_name() -> Seq<char> {
    seq!['n', 'e', 't', 's', 'i', 'm']
}

/// Settings shared by TAP and TUN interfaces.
#[derive(Debug)]
pub struct IfaceBuilder {
    /// The interface name.
    pub name: String,
    /// The IPv4 address and its netmask length.
    pub ipv4_addr: Option<(Ipv4Addr, u8)>,
    /// The IPv6 address and its netmask length.
    pub ipv6_addr: Option<(Ipv6Addr, u8)>,
    /// IPv4 routes, in the order they were added.
    pub ipv4_routes: Vec<Ipv4Route>,
    /// IPv6 routes, in the order they were added.
    pub ipv6_routes: Vec<Ipv6Route>,
}

/// The settings of an interface, as values.
pub struct IfaceSettings {
    pub name: Seq<char>,
    pub ipv4_addr: Option<(Ipv4Addr, u8)>,
    pub ipv6_addr: Option<(Ipv6Addr, u8)>,
    pub ipv4_routes: Seq<Ipv4Route>,
    pub ipv6_routes: Seq<Ipv6Route>,
}

impl View for IfaceBuilder {
    type V = IfaceSettings;

    open spec fn view(&self) -> IfaceSettings {
        IfaceSettings {
            name: self.name@,
            ipv4_addr: self.ipv4_addr,
            ipv6_addr: self.ipv6_addr,
            ipv4_routes: self.ipv4_routes@,
            ipv6_routes: self.ipv6_routes@,
        }
    }
}

/// The settings of a fresh interface: named `netsim`, with no addresses and no routes.
pub open spec fn default_settings() -> IfaceSettings {
    IfaceSettings {
        name: default_iface_name(),
        ipv4_addr: None,
        ipv6_addr: None,
        ipv4_routes: Seq::empty(),
        ipv6_routes: Seq::empty(),
    }
}

impl IfaceBuilder {
    /// The settings of a fresh interface.
    pub fn new() -> (r: IfaceBuilder)
        ensures
            r@ == default_settings(),
    {
        let name = "netsim".to_owned();
        proof {
            reveal_strlit("netsim");
        }
        let r = IfaceBuilder {
            name,
            ipv4_addr: None,
            ipv6_addr: None,
            ipv4_routes: Vec::new(),
            ipv6_routes: Vec::new(),
        };
        assert(r@.name =~= default_iface_name());
        r
    }
}

/// This object can be used to set the configuration options for an `EtherIface` before creating
/// the `EtherIface`.
#[derive(Debug)]
pub struct EtherIfaceBuilder {
    mac_addr: MacAddr,
    builder: IfaceBuilder,
}

impl EtherIfaceBuilder {
    /// The MAC address the interface will get.
    pub closed spec fn spec_mac(&self) -> MacAddr {
        self.mac_addr
    }

    /// The other settings of the interface.
    pub closed spec fn settings(&self) -> IfaceSettings {
        self.builder@
    }

    /// Start building a new `EtherIface` with the default configuration options: a random MAC
    /// address, the name `netsim`, no addresses and no routes.
    pub fn new() -> (r: EtherIfaceBuilder)
        ensures
            r.settings() == default_settings(),
    {
        EtherIfaceBuilder { mac_addr: MacAddr::random(), builder: IfaceBuilder::new() }
    }

    /// Set the interface name.
    pub fn name<S: Into<String>>(self, name: S) -> (r: Self)
        ensures
            r.spec_mac() == self.spec_mac(),
            S::obeys_into_spec() ==> r.settings().name == name.into_spec()@,
            r.settings() == (IfaceSettings { name: r.settings().name, ..self.settings() }),
    {
        let mut builder = self.builder;
        builder.name = name.into();
        EtherIfaceBuilder { mac_addr: self.mac_addr, builder }
    }

    /// Set the interface MAC address.
    pub fn mac_addr(self, addr: MacAddr) -> (r: Self)
        ensures
            r.spec_mac() == addr,
            r.settings() == self.settings(),
    {
        EtherIfaceBuilder { mac_addr: addr, builder: self.builder }
    }

    /// Set the interface's IPv4 address and netmask.
    pub fn ipv4_addr(self, addr: Ipv4Addr, netmask_bits: u8) -> (r: Self)
        ensures
            r.spec_mac() == self.spec_mac(),
            r.settings() == (IfaceSettings {
                ipv4_addr: Some((addr, netmask_bits)),
                ..self.settings()
            }),
    {
        let mut builder = self.builder;
        builder.ipv4_addr = Some((addr, netmask_bits));
        EtherIfaceBuilder { mac_addr: self.mac_addr, builder }
    }

    /// Set the interface's IPv6 address and netmask.
    pub fn ipv6_addr(self, addr: Ipv6Addr, netmask_bits: u8) -> (r: Self)
        ensures
            r.spec_mac() == self.spec_mac(),
            r.settings() == (IfaceSettings {
                ipv6_addr: Some((addr, netmask_bits)),
                ..self.settings()
            }),
    {
        let mut builder = self.builder;
        builder.ipv6_addr = Some((addr, netmask_bits));
        EtherIfaceBuilder { mac_addr: self.mac_addr, builder }
    }

    /// Add an IPv4 route to the interface.
    pub fn ipv4_route(self, route: Ipv4Route) -> (r: Self)
        ensures
            r.spec_mac() == self.spec_mac(),
            r.settings() == (IfaceSettings {
                ipv4_routes: self.settings().ipv4_routes.push(route),
                ..self.settings()
            }),
    {
        let mut builder = self.builder;
        builder.ipv4_routes.push(route);
        EtherIfaceBuilder { mac_addr: self.mac_addr, builder }
    }

    /// Add an IPv6 route to the interface.
    pub fn ipv6_route(self, route: Ipv6Route) -> (r: Self)
        ensures
            r.spec_mac() == self.spec_mac(),
            r.settings() == (IfaceSettings {
                ipv6_routes: self.settings().ipv6_routes.push(route),
                ..self.settings()
            }),
    {
        let mut builder = self.builder;
        builder.ipv6_routes.push(route);
        EtherIfaceBuilder { mac_addr: self.mac_addr, builder }
    }

    /// The MAC address the interface will get.
    pub fn mac(&self) -> (r: MacAddr)
        ensures
            r == self.spec_mac(),
    {
        self.mac_addr
    }

    /// The other settings of the interface.
    pub fn iface_settings(&self) -> (r: &IfaceBuilder)
        ensures
            r@ == self.settings(),
    {
        &self.builder
    }

    /// Consumes the builder and returns its MAC address and other settings, from which the
    /// device is created.
    pub fn into_parts(self) -> (r: (MacAddr, IfaceBuilder))
        ensures
            r.0 == self.spec_mac(),
            r.1@ == self.settings(),
    {
        (self.mac_addr, self.builder)
    }
}

impl Default for EtherIfaceBuilder {
    fn default() -> (r: EtherIfaceBuilder)
        ensures
            r.settings() == default_settings(),
    {
        EtherIfaceBuilder::new()
    }
}

/// This object can be used to set the configuration options for an `IpIface` before creating the
/// `IpIface`.
#[derive(Debug)]
pub struct IpIfaceBuilder {
    builder: IfaceBuilder,
}

impl IpIfaceBuilder {
    /// The settings of the interface.
    pub closed spec fn settings(&self) -> IfaceSettings {
        self.builder@
    }

    /// Start building a new `IpIface` with the default configuration options: the name `netsim`,
    /// no addresses and no routes.
    pub fn new() -> (r: IpIfaceBuilder)
        ensures
            r.settings() == default_settings(),
    {
        IpIfaceBuilder { builder: IfaceBuilder::new() }
    }

    /// Set the interface name.
    pub fn name<S: Into<String>>(self, name: S) -> (r: Self)
        ensures
            S::obeys_into_spec() ==> r.settings().name == name.into_spec()@,
            r.settings() == (IfaceSettings { name: r.settings().name, ..self.settings() }),
    {
        let mut builder = self.builder;
        builder.name = name.into();
        IpIfaceBuilder { builder }
    }

    /// Set the interface's IPv4 address and netmask.
    pub fn ipv4_addr(self, addr: Ipv4Addr, netmask_bits: u8) -> (r: Self)
        ensures
            r.settings() == (IfaceSettings {
                ipv4_addr: Some((addr, netmask_bits)),
                ..self.settings()
            }),
    {
        let mut builder = self.builder;
        builder.ipv4_addr = Some((addr, netmask_bits));
        IpIfaceBuilder { builder }
    }

    /// Set the interface's IPv6 address and netmask.
    pub fn ipv6_addr(self, addr: Ipv6Addr, netmask_bits: u8) -> (r: Self)
        ensures
            r.settings() == (IfaceSettings {
                ipv6_addr: Some((addr, netmask_bits)),
                ..self.settings()
            }),
    {
        let mut builder = self.builder;
        builder.ipv6_addr = Some((addr, netmask_bits));
        IpIfaceBuilder { builder }
    }

    /// Add an IPv4 route to the interface.
    pub fn ipv4_route(self, route: Ipv4Route) -> (r: Self)
        ensures
            r.settings() == (IfaceSettings {
                ipv4_routes: self.settings().ipv4_routes.push(route),
                ..self.settings()
            }),
    {
        let mut builder = self.builder;
        builder.ipv4_routes.push(route);
        IpIfaceBuilder { builder }
    }

    /// Add an IPv6 route to the interface.
    pub fn ipv6_route(self, route: Ipv6Route) -> (r: Self)
        ensures
            r.settings() == (IfaceSettings {
                ipv6_routes: self.settings().ipv6_routes.push(route),
                ..self.settings()
            }),
    {
        let mut builder = self.builder;
        builder.ipv6_routes.push(route);
        IpIfaceBuilder { builder }
    }

    /// The settings of the interface.
    pub fn iface_settings(&self) -> (r: &IfaceBuilder)
        ensures
            r@ == self.settings(),
    {
        &self.builder
    }

    /// Consumes the builder and returns the settings from which the device is created.
    pub fn into_settings(self) -> (r: IfaceBuilder)
        ensures
            r@ == self.settings(),
    {
        self.builder
    }
}

impl Default for IpIfaceBuilder {
    fn default() -> (r: IpIfaceBuilder)
        ensures
            r.settings() == default_settings(),
    {
        IpIfaceBuilder::new()
    }
}

} // verus!
