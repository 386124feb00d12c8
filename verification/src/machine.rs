//! The interfaces a simulated machine is built with.

use crate::iface::{EtherIfaceBuilder, IpIfaceBuilder};
use crate::plug::{EtherPlug, IpPlug};
use vstd::prelude::*;

verus! {

/// A builder for creating a virtual network machine: the TAP and TUN interfaces it gets, each
/// with the plug its traffic goes through.
pub struct MachineBuilder {
    ether_ifaces: Vec<(EtherIfaceBuilder, EtherPlug)>,
    ip_ifaces: Vec<(IpIfaceBuilder, IpPlug)>,
}

impl MachineBuilder {
    /// The Ethernet interfaces added so far, in order.
    pub closed spec fn ether_ifaces(&self) -> Seq<(EtherIfaceBuilder, EtherPlug)> {
        self.ether_ifaces@
    }

    /// The IP interfaces added so far, in order.
    pub closed spec fn ip_ifaces(&self) -> Seq<(IpIfaceBuilder, IpPlug)> {
        self.ip_ifaces@
    }

    /// Create a new `MachineBuilder` with no interfaces.
    pub fn new() -> (r: MachineBuilder)
        ensures
            r.ether_ifaces().len() == 0,
            r.ip_ifaces().len() == 0,
    {
        MachineBuilder { ether_ifaces: Vec::new(), ip_ifaces: Vec::new() }
    }

    /// Add an ethernet (TAP) interface to the machine.
    pub fn add_ether_iface(self, iface: EtherIfaceBuilder, plug: EtherPlug) -> (r: MachineBuilder)
        ensures
            r.ether_ifaces() == self.ether_ifaces().push((iface, plug)),
            r.ip_ifaces() == self.ip_ifaces(),
    {
        let mut ether_ifaces = self.ether_ifaces;
        ether_ifaces.push((iface, plug));
        MachineBuilder { ether_ifaces, ip_ifaces: self.ip_ifaces }
    }

    /// Add an IP (TUN) interface to the machine.
    pub fn add_ip_iface(self, iface: IpIfaceBuilder, plug: IpPlug) -> (r: MachineBuilder)
        ensures
            r.ip_ifaces() == self.ip_ifaces().push((iface, plug)),
            r.ether_ifaces() == self.ether_ifaces(),
    {
        let mut ip_ifaces = self.ip_ifaces;
        ip_ifaces.push((iface, plug));
        MachineBuilder { ether_ifaces: self.ether_ifaces, ip_ifaces }
    }

    /// Consumes the builder and returns its interfaces, from which the devices are created.
    pub fn into_parts(self) -> (r: (Vec<(EtherIfaceBuilder, EtherPlug)>, Vec<(IpIfaceBuilder, IpPlug)>))
        ensures
            r.0@ == self.ether_ifaces(),
            r.1@ == self.ip_ifaces(),
    {
        (self.ether_ifaces, self.ip_ifaces)
    }
}

impl Default for MachineBuilder {
    fn default() -> (r: MachineBuilder)
        ensures
            r.ether_ifaces().len() == 0,
            r.ip_ifaces().len() == 0,
    {
        MachineBuilder::new()
    }
}

} // verus!
