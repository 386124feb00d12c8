//! A library for simulating networks: addresses, subnets, routes, packets, plugs, interface and
//! machine settings, and the decisions of the simulated devices (Ethernet hubs, lossy links,
//! TAP/TUN device tasks, pcap logging and the network's own tasks).

pub mod addr;
pub mod device;
pub mod fd;
pub mod hub;
pub mod iface;
pub mod machine;
pub mod network;
pub mod node;
pub mod packet_loss;
pub mod pcap;
pub mod plug;
pub mod range;
pub mod route;
pub mod wire;

pub use addr::{IpAddr, Ipv4Addr, Ipv6Addr, MacAddr};
pub use hub::{Hub, HubBuilder};
pub use iface::{EtherIfaceBuilder, IpIfaceBuilder};
pub use machine::MachineBuilder;
pub use network::{Network, NetworkHandle};
pub use plug::{EtherPlug, IpPlug, Ipv4Plug, Ipv6Plug, Plug};
pub use range::{Ipv4Range, Ipv6Range};
pub use route::{AddRouteError, Ipv4Route, Ipv6Route};
pub use wire::{EtherFrame, IpPacket, Ipv4Packet, Ipv6Packet};
