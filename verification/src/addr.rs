//! Network addresses: IPv4, IPv6 and Ethernet (MAC) addresses, held as their octets in network
//! byte order.

use vstd::prelude::*;

verus! {

/// An IPv4 address, as its four octets in network byte order.
#[derive(Clone, Copy, Debug, PartialEq, Eq, Hash)]
pub struct Ipv4Addr {
    pub octets: [u8; 4],
}

/// An IPv6 address, as its sixteen octets in network byte order.
#[derive(Clone, Copy, Debug, PartialEq, Eq, Hash)]
pub struct Ipv6Addr {
    pub octets: [u8; 16],
}

/// An IP address of either family.
#[derive(Clone, Copy, Debug, PartialEq, Eq, Hash)]
pub enum IpAddr {
    V4(Ipv4Addr),
    V6(Ipv6Addr),
}

/// An Ethernet (MAC) address, as its six octets in transmission order.
#[derive(Clone, Copy, Debug, PartialEq, Eq, Hash)]
pub struct MacAddr {
    pub octets: [u8; 6],
}

impl View for Ipv4Addr {
    type V = Seq<u8>;

    open spec fn view(&self) -> Seq<u8> {
        self.octets@
    }
}

impl View for Ipv6Addr {
    type V = Seq<u8>;

    open spec fn view(&self) -> Seq<u8> {
        self.octets@
    }
}

impl View for MacAddr {
    type V = Seq<u8>;

    open spec fn view(&self) -> Seq<u8> {
        self.octets@
    }
}

impl Ipv4Addr {
    /// The address `a.b.c.d`.
    pub fn new(a: u8, b: u8, c: u8, d: u8) -> (r: Ipv4Addr)
        ensures
            r@ == seq![a, b, c, d],
    {
        let r = Ipv4Addr { octets: [a, b, c, d] };
        assert(r@ =~= seq![a, b, c, d]);
        r
    }

    /// The address `0.0.0.0`.
    pub fn unspecified() -> (r: Ipv4Addr)
        ensures
            r@ == Seq::new(4, |i: int| 0u8),
    {
        let r = Ipv4Addr { octets: [0u8; 4] };
        assert(r@ =~= Seq::new(4, |i: int| 0u8));
        r
    }

    /// The four octets of the address.
    pub fn octets(&self) -> (r: [u8; 4])
        ensures
            r@ == self@,
    {
        self.octets
    }

    /// Reads an address from the four bytes of `bytes` that start at `start`.
    pub fn from_slice(bytes: &[u8], start: usize) -> (r: Ipv4Addr)
        requires
            start + 4 <= bytes@.len(),
        ensures
            r@ == bytes@.subrange(start as int, start + 4),
    {
        let r = Ipv4Addr {
            octets: [bytes[start], bytes[start + 1], bytes[start + 2], bytes[start + 3]],
        };
        assert(r@ =~= bytes@.subrange(start as int, start + 4));
        r
    }
}

impl Ipv6Addr {
    /// The address `::`.
    pub fn unspecified() -> (r: Ipv6Addr)
        ensures
            r@ == Seq::new(16, |i: int| 0u8),
    {
        let r = Ipv6Addr { octets: [0u8; 16] };
        assert(r@ =~= Seq::new(16, |i: int| 0u8));
        r
    }

    /// The sixteen octets of the address.
    pub fn octets(&self) -> (r: [u8; 16])
        ensures
            r@ == self@,
    {
        self.octets
    }

    /// Reads an address from the sixteen bytes of `bytes` that start at `start`.
    pub fn from_slice(bytes: &[u8], start: usize) -> (r: Ipv6Addr)
        requires
            start + 16 <= bytes@.len(),
        ensures
            r@ == bytes@.subrange(start as int, start + 16),
    {
        let mut octets = [0u8; 16];
        let mut i: usize = 0;
        while i < 16
            invariant
                start + 16 <= bytes.len(),
                0 <= i <= 16,
                forall|j: int| 0 <= j < i ==> octets@[j] == bytes@[start + j],
            decreases 16 - i,
        {
            octets[i] = bytes[start + i];
            i = i + 1;
        }
        let r = Ipv6Addr { octets };
        assert(r@ =~= bytes@.subrange(start as int, start + 16));
        r
    }
}

impl MacAddr {
    /// A random MAC address.
    pub fn random() -> (r: MacAddr) {
        MacAddr { octets: random_mac_octets() }
    }
}

/// Six random bytes.
///
/// Calls `rand::random::<[u8; 6]>()`, which draws from the thread-local generator. The result
/// depends on chance, so nothing is stated of it.
#[verifier::external_body]
fn random_mac_octets() -> (r: [u8; 6]) {
    rand::random::<[u8; 6]>()
}

} // verus!
