//! Packets and frames as they travel through the simulated network, held as their raw bytes.

use crate::addr::{IpAddr, Ipv4Addr, Ipv6Addr};
use vstd::prelude::*;

verus! {

/// The version field of an IP header: the high four bits of its first byte.
pub open spec fn ip_version(bytes: Seq<u8>) -> u8
    recommends
        bytes.len() > 0,
{
    bytes[0] / 16
}

/// Whether `bytes` can be read as an IP packet: it has a first byte, whose version field says 4
/// or 6.
pub open spec fn is_ip_packet_bytes(bytes: Seq<u8>) -> bool {
    &&& bytes.len() > 0
    &&& (ip_version(bytes) == 4 || ip_version(bytes) == 6)
}

/// Length of the fixed part of an IPv4 header, which holds both addresses.
pub const IPV4_HEADER_LEN: usize = 20;

/// Length of the fixed IPv6 header, which holds both addresses.
pub const IPV6_HEADER_LEN: usize = 40;

/// An IPv4 packet.
#[derive(Debug, PartialEq, Eq)]
pub struct Ipv4Packet {
    bytes: Vec<u8>,
}

/// An IPv6 packet.
#[derive(Debug, PartialEq, Eq)]
pub struct Ipv6Packet {
    bytes: Vec<u8>,
}

/// An Ethernet frame.
#[derive(Debug, PartialEq, Eq)]
pub struct EtherFrame {
    bytes: Vec<u8>,
}

impl View for Ipv4Packet {
    type V = Seq<u8>;

    closed spec fn view(&self) -> Seq<u8> {
        self.bytes@
    }
}

impl View for Ipv6Packet {
    type V = Seq<u8>;

    closed spec fn view(&self) -> Seq<u8> {
        self.bytes@
    }
}

impl View for EtherFrame {
    type V = Seq<u8>;

    closed spec fn view(&self) -> Seq<u8> {
        self.bytes@
    }
}

fn copy_bytes(bytes: &Vec<u8>) -> (r: Vec<u8>)
    ensures
        r@ == bytes@,
{
    let r = bytes.clone();
    assert(r@ =~= bytes@);
    r
}

impl Clone for Ipv4Packet {
    fn clone(&self) -> (r: Self)
        ensures
            r@ == self@,
    {
        Ipv4Packet { bytes: copy_bytes(&self.bytes) }
    }
}

impl Clone for Ipv6Packet {
    fn clone(&self) -> (r: Self)
        ensures
            r@ == self@,
    {
        Ipv6Packet { bytes: copy_bytes(&self.bytes) }
    }
}

impl Clone for EtherFrame {
    fn clone(&self) -> (r: Self)
        ensures
            r@ == self@,
    {
        EtherFrame { bytes: copy_bytes(&self.bytes) }
    }
}

impl Ipv4Packet {
    /// Wraps a byte buffer holding an IPv4 packet.
    pub fn from_bytes(bytes: Vec<u8>) -> (r: Ipv4Packet)
        ensures
            r@ == bytes@,
    {
        Ipv4Packet { bytes }
    }

    /// The packet's bytes.
    pub fn as_bytes(&self) -> (r: &[u8])
        ensures
            r@ == self@,
    {
        self.bytes.as_slice()
    }

    /// Consumes the packet and returns its bytes.
    pub fn into_bytes(self) -> (r: Vec<u8>)
        ensures
            r@ == self@,
    {
        self.bytes
    }

    /// The source address: bytes 12 to 15 of the header.
    pub fn source_ip(&self) -> (r: Ipv4Addr)
        requires
            self@.len() >= IPV4_HEADER_LEN,
        ensures
            r@ == self@.subrange(12, 16),
    {
        Ipv4Addr::from_slice(self.bytes.as_slice(), 12)
    }

    /// The destination address: bytes 16 to 19 of the header.
    pub fn dest_ip(&self) -> (r: Ipv4Addr)
        requires
            self@.len() >= IPV4_HEADER_LEN,
        ensures
            r@ == self@.subrange(16, 20),
    {
        Ipv4Addr::from_slice(self.bytes.as_slice(), 16)
    }
}

impl Ipv6Packet {
    /// Wraps a byte buffer holding an IPv6 packet.
    pub fn from_bytes(bytes: Vec<u8>) -> (r: Ipv6Packet)
        ensures
            r@ == bytes@,
    {
        Ipv6Packet { bytes }
    }

    /// The packet's bytes.
    pub fn as_bytes(&self) -> (r: &[u8])
        ensures
            r@ == self@,
    {
        self.bytes.as_slice()
    }

    /// Consumes the packet and returns its bytes.
    pub fn into_bytes(self) -> (r: Vec<u8>)
        ensures
            r@ == self@,
    {
        self.bytes
    }

    /// The source address: bytes 8 to 23 of the header.
    pub fn source_ip(&self) -> (r: Ipv6Addr)
        requires
            self@.len() >= IPV6_HEADER_LEN,
        ensures
            r@ == self@.subrange(8, 24),
    {
        Ipv6Addr::from_slice(self.bytes.as_slice(), 8)
    }

    /// The destination address: bytes 24 to 39 of the header.
    pub fn dest_ip(&self) -> (r: Ipv6Addr)
        requires
            self@.len() >= IPV6_HEADER_LEN,
        ensures
            r@ == self@.subrange(24, 40),
    {
        Ipv6Addr::from_slice(self.bytes.as_slice(), 24)
    }
}

impl EtherFrame {
    /// Wraps a byte buffer holding an Ethernet frame.
    pub fn from_bytes(bytes: Vec<u8>) -> (r: EtherFrame)
        ensures
            r@ == bytes@,
    {
        EtherFrame { bytes }
    }

    /// The frame's bytes.
    pub fn as_bytes(&self) -> (r: &[u8])
        ensures
            r@ == self@,
    {
        self.bytes.as_slice()
    }

    /// Consumes the frame and returns its bytes.
    pub fn into_bytes(self) -> (r: Vec<u8>)
        ensures
            r@ == self@,
    {
        self.bytes
    }
}

/// An IP packet.
#[derive(Debug, PartialEq, Eq)]
pub enum IpPacket {
    /// IPv4
    V4(Ipv4Packet),
    /// IPv6
    V6(Ipv6Packet),
}

impl View for IpPacket {
    type V = Seq<u8>;

    open spec fn view(&self) -> Seq<u8> {
        match self {
            IpPacket::V4(p) => p@,
            IpPacket::V6(p) => p@,
        }
    }
}

impl Clone for IpPacket {
    fn clone(&self) -> (r: Self)
        ensures
            r@ == self@,
            r is V4 <==> self is V4,
    {
        match self {
            IpPacket::V4(p) => IpPacket::V4(p.clone()),
            IpPacket::V6(p) => IpPacket::V6(p.clone()),
        }
    }
}

impl IpPacket {
    /// Whether the header is long enough to hold both addresses of its family.
    pub open spec fn has_addresses(&self) -> bool {
        match self {
            IpPacket::V4(p) => p@.len() >= IPV4_HEADER_LEN,
            IpPacket::V6(p) => p@.len() >= IPV6_HEADER_LEN,
        }
    }

    /// Whether `bytes` can be read as an IP packet (see `from_bytes`).
    pub fn is_valid_bytes(bytes: &[u8]) -> (r: bool)
        ensures
            r == is_ip_packet_bytes(bytes@),
    {
        if bytes.len() == 0 {
            return false;
        }
        let version = version_nibble(bytes[0]);
        version == 4 || version == 6
    }

    /// Parses an IP packet from a byte buffer, by the version field of its first byte.
    pub fn from_bytes(buffer: Vec<u8>) -> (r: IpPacket)
        requires
            is_ip_packet_bytes(buffer@),
        ensures
            r@ == buffer@,
            r is V4 <==> ip_version(buffer@) == 4,
            r is V6 <==> ip_version(buffer@) == 6,
    {
        let version = version_nibble(buffer[0]);
        if version == 4 {
            IpPacket::V4(Ipv4Packet::from_bytes(buffer))
        } else {
            IpPacket::V6(Ipv6Packet::from_bytes(buffer))
        }
    }

    /// The packet's bytes.
    pub fn as_bytes(&self) -> (r: &[u8])
        ensures
            r@ == self@,
    {
        match self {
            IpPacket::V4(packet) => packet.as_bytes(),
            IpPacket::V6(packet) => packet.as_bytes(),
        }
    }

    /// Consumes the packet and returns its bytes.
    pub fn into_bytes(self) -> (r: Vec<u8>)
        ensures
            r@ == self@,
    {
        match self {
            IpPacket::V4(packet) => packet.into_bytes(),
            IpPacket::V6(packet) => packet.into_bytes(),
        }
    }

    /// The packet's source address.
    pub fn source_ip(&self) -> (r: IpAddr)
        requires
            self.has_addresses(),
        ensures
            self is V4 ==> (r matches IpAddr::V4(a) && a@ == self@.subrange(12, 16)),
            self is V6 ==> (r matches IpAddr::V6(a) && a@ == self@.subrange(8, 24)),
    {
        match self {
            IpPacket::V4(packet) => IpAddr::V4(packet.source_ip()),
            IpPacket::V6(packet) => IpAddr::V6(packet.source_ip()),
        }
    }

    /// The packet's destination address.
    pub fn dest_ip(&self) -> (r: IpAddr)
        requires
            self.has_addresses(),
        ensures
            self is V4 ==> (r matches IpAddr::V4(a) && a@ == self@.subrange(16, 20)),
            self is V6 ==> (r matches IpAddr::V6(a) && a@ == self@.subrange(24, 40)),
    {
        match self {
            IpPacket::V4(packet) => IpAddr::V4(packet.dest_ip()),
            IpPacket::V6(packet) => IpAddr::V6(packet.dest_ip()),
        }
    }

    /// A copy of the inner IPv4 packet, if this is one.
    pub fn to_ipv4_packet(&self) -> (r: Option<Ipv4Packet>)
        ensures
            r is Some <==> self is V4,
            r matches Some(p) ==> p@ == self@,
    {
        match self {
            IpPacket::V4(packet) => Some(packet.clone()),
            _ => None,
        }
    }

    /// A copy of the inner IPv6 packet, if this is one.
    pub fn to_ipv6_packet(&self) -> (r: Option<Ipv6Packet>)
        ensures
            r is Some <==> self is V6,
            r matches Some(p) ==> p@ == self@,
    {
        match self {
            IpPacket::V6(packet) => Some(packet.clone()),
            _ => None,
        }
    }
}

/// The high four bits of `b`.
fn version_nibble(b: u8) -> (r: u8)
    ensures
        r == b / 16,
{
    assert(b >> 4u8 == b / 16) by (bit_vector);
    b >> 4
}

impl AsRef<[u8]> for Ipv4Packet {
    fn as_ref(&self) -> (r: &[u8])
        ensures
            r@ == self@,
    {
        self.bytes.as_slice()
    }
}

impl AsRef<[u8]> for Ipv6Packet {
    fn as_ref(&self) -> (r: &[u8])
        ensures
            r@ == self@,
    {
        self.bytes.as_slice()
    }
}

impl AsRef<[u8]> for EtherFrame {
    fn as_ref(&self) -> (r: &[u8])
        ensures
            r@ == self@,
    {
        self.bytes.as_slice()
    }
}

impl AsRef<[u8]> for IpPacket {
    fn as_ref(&self) -> (r: &[u8])
        ensures
            r@ == self@,
    {
        match self {
            IpPacket::V4(p) => p.as_bytes(),
            IpPacket::V6(p) => p.as_bytes(),
        }
    }
}

/// What the IPv4 side of an IP plug adapted to IPv4 receives for a packet arriving from the IP
/// side.
pub open spec fn ipv4_part(packet: IpPacket) -> Option<Ipv4Packet> {
    match packet {
        IpPacket::V4(p) => Some(p),
        IpPacket::V6(_) => None,
    }
}

/// What the IPv6 side of an IP plug adapted to IPv6 receives for a packet arriving from the IP
/// side.
pub open spec fn ipv6_part(packet: IpPacket) -> Option<Ipv6Packet> {
    match packet {
        IpPacket::V6(p) => Some(p),
        IpPacket::V4(_) => None,
    }
}

/// Filter of an IP plug adapted to IPv4: IPv4 packets pass, all others are dropped.
pub fn filter_ipv4(packet: IpPacket) -> (r: Option<Ipv4Packet>)
    ensures
        r == ipv4_part(packet),
{
    match packet {
        IpPacket::V4(p) => Some(p),
        IpPacket::V6(_) => None,
    }
}

/// Filter of an IP plug adapted to IPv6: IPv6 packets pass, all others are dropped.
pub fn filter_ipv6(packet: IpPacket) -> (r: Option<Ipv6Packet>)
    ensures
        r == ipv6_part(packet),
{
    match packet {
        IpPacket::V6(p) => Some(p),
        IpPacket::V4(_) => None,
    }
}

/// An IPv4 packet sent into an IPv4-adapted plug comes out of the IP side as `IpPacket::V4` of
/// itself, and such a packet passes the filter back unchanged; IPv6 packets never pass.
pub proof fn lemma_ipv4_adapter_roundtrip(p: Ipv4Packet, q: Ipv6Packet)
    ensures
        ipv4_part(IpPacket::V4(p)) == Some(p),
        ipv4_part(IpPacket::V6(q)) is None,
        IpPacket::V4(p)@ == p@,
{
}

/// An IPv6-adapted plug reads and writes IPv6 packets: an IPv6 packet sent into it comes out of
/// the IP side as `IpPacket::V6` of itself, an IPv6 packet leaving through the IP side is read
/// from it unchanged, and IPv4 packets never pass.
pub proof fn lemma_ipv6_adapter_roundtrip(p: Ipv6Packet, q: Ipv4Packet)
    ensures
        ipv6_part(IpPacket::V6(p)) == Some(p),
        ipv6_part(IpPacket::V4(q)) is None,
        IpPacket::V6(p)@ == p@,
{
}

} // verus!
