//! Subnets: an address prefix and its length in bits.

use crate::addr::{Ipv4Addr, Ipv6Addr};
use vstd::prelude::*;

verus! {

/// The mask of octet `i` of an address whose first `bits` bits form the prefix.
pub open spec fn prefix_mask_byte(bits: int, i: int) -> u8 {
    let keep = bits - 8 * i;
    if keep >= 8 {
        0xff
    } else if keep <= 0 {
        0
    } else {
        !(0xffu8 >> (keep as u8))
    }
}

/// `octets` with every bit after the first `bits` cleared.
pub open spec fn masked(octets: Seq<u8>, bits: int) -> Seq<u8> {
    Seq::new(octets.len(), |i: int| octets[i] & prefix_mask_byte(bits, i))
}

/// The mask of octet `i` for a prefix of `bits` bits.
fn mask_byte(bits: u8, i: usize) -> (r: u8)
    requires
        i < 16,
    ensures
        r == prefix_mask_byte(bits as int, i as int),
{
    let used: u16 = 8 * (i as u16);
    let b: u16 = bits as u16;
    if b >= used + 8 {
        0xff
    } else if b <= used {
        0
    } else {
        let keep: u8 = (b - used) as u8;
        !(0xffu8 >> keep)
    }
}

/// `octets` with every bit after the first `bits` cleared.
fn mask_octets<const N: usize>(octets: [u8; N], bits: u8) -> (r: [u8; N])
    requires
        N <= 16,
    ensures
        r@ == masked(octets@, bits as int),
{
    let mut r = octets;
    let mut i: usize = 0;
    while i < N
        invariant
            N <= 16,
            i <= N,
            r@.len() == N,
            forall|j: int| 0 <= j < i ==> r@[j] == octets@[j] & prefix_mask_byte(bits as int, j),
            forall|j: int| i <= j < N ==> r@[j] == octets@[j],
        decreases N - i,
    {
        let m = mask_byte(bits, i);
        r[i] = octets[i] & m;
        i = i + 1;
    }
    assert(r@ =~= masked(octets@, bits as int));
    r
}

/// Masking twice clears nothing more than masking once: a range built from another range's base
/// address and prefix length has the same base address.
pub proof fn lemma_masked_idempotent(octets: Seq<u8>, bits: int)
    ensures
        masked(masked(octets, bits), bits) == masked(octets, bits),
{
    let m = masked(octets, bits);
    assert forall|i: int| 0 <= i < octets.len() implies #[trigger] masked(m, bits)[i] == m[i] by {
        let x = octets[i];
        let k = prefix_mask_byte(bits, i);
        assert((x & k) & k == x & k) by (bit_vector);
    }
    assert(masked(m, bits) =~= m);
}

/// Bit `j` of `x`, counting from the most significant bit: bit 0 is `0x80`, bit 7 is `0x01`.
pub open spec fn msb_bit(x: u8, j: u8) -> bool {
    x & (0x80u8 >> j) != 0u8
}

/// A prefix of `bits` bits covers exactly the first `bits` bits of the address: bit `j` of the
/// mask of octet `i`, which is bit `8 * i + j` of the address, is set if and only if
/// `8 * i + j < bits`.
pub proof fn lemma_prefix_mask_bits(bits: int, i: int, j: u8)
    requires
        j < 8,
    ensures
        msb_bit(prefix_mask_byte(bits, i), j) <==> 8 * i + j < bits,
{
    let keep = bits - 8 * i;
    if keep >= 8 {
        assert(0xffu8 & (0x80u8 >> j) != 0u8) by (bit_vector)
            requires
                j < 8u8,
        ;
    } else if keep <= 0 {
        assert(0u8 & (0x80u8 >> j) == 0u8) by (bit_vector);
    } else {
        let k = keep as u8;
        assert(k as int == keep);
        assert((!(0xffu8 >> k)) & (0x80u8 >> j) != 0u8 <==> j < k) by (bit_vector)
            requires
                0u8 < k < 8u8,
                j < 8u8,
        ;
    }
}

/// Masking keeps exactly the prefix: bit `j` of octet `i` of the masked address, which is bit
/// `8 * i + j` of the address, is that bit of the address when `8 * i + j < bits`, and clear
/// otherwise. So a range's base address is its address with the host bits, and only those,
/// cleared.
pub proof fn lemma_masked_keeps_prefix(octets: Seq<u8>, bits: int, i: int, j: u8)
    requires
        0 <= i < octets.len(),
        j < 8,
    ensures
        msb_bit(masked(octets, bits)[i], j) <==> (8 * i + j < bits && msb_bit(octets[i], j)),
{
    lemma_prefix_mask_bits(bits, i, j);
    let x = octets[i];
    let m = prefix_mask_byte(bits, i);
    assert(masked(octets, bits)[i] == x & m);
    assert(((x & m) & (0x80u8 >> j) != 0u8) <==> (x & (0x80u8 >> j) != 0u8 && m & (0x80u8 >> j)
        != 0u8)) by (bit_vector)
        requires
            j < 8u8,
    ;
}

/// A range of IPv4 addresses: those that share the first `bits` bits of the base address.
#[derive(Clone, Copy, Debug, PartialEq, Eq, Hash)]
pub struct Ipv4Range {
    addr: Ipv4Addr,
    bits: u8,
}

/// A range of IPv6 addresses: those that share the first `bits` bits of the base address.
#[derive(Clone, Copy, Debug, PartialEq, Eq, Hash)]
pub struct Ipv6Range {
    addr: Ipv6Addr,
    bits: u8,
}

impl Ipv4Range {
    /// The octets of the base address.
    pub closed spec fn base(&self) -> Seq<u8> {
        self.addr@
    }

    /// The prefix length.
    pub closed spec fn bits(&self) -> u8 {
        self.bits
    }

    /// The range of addresses that share the first `bits` bits of `addr`; the base address is
    /// `addr` with the remaining bits cleared.
    pub fn new(addr: Ipv4Addr, bits: u8) -> (r: Ipv4Range)
        ensures
            r.base() == masked(addr@, bits as int),
            r.bits() == bits,
    {
        Ipv4Range { addr: Ipv4Addr { octets: mask_octets(addr.octets, bits) }, bits }
    }

    /// The range of all IPv4 addresses, `0.0.0.0/0`.
    pub fn global() -> (r: Ipv4Range)
        ensures
            r.base() == Seq::new(4, |i: int| 0u8),
            r.bits() == 0,
    {
        let r = Ipv4Range::new(Ipv4Addr::unspecified(), 0);
        assert(r.base() =~= Seq::new(4, |i: int| 0u8)) by {
            assert forall|i: int| 0 <= i < 4 implies r.base()[i] == 0u8 by {
                assert(0u8 & prefix_mask_byte(0, i) == 0u8) by (bit_vector);
            }
        }
        r
    }

    /// The base address of the range.
    pub fn base_addr(&self) -> (r: Ipv4Addr)
        ensures
            r@ == self.base(),
    {
        self.addr
    }

    /// The length of the range's netmask prefix.
    pub fn netmask_prefix_length(&self) -> (r: u8)
        ensures
            r == self.bits(),
    {
        self.bits
    }
}

impl Ipv6Range {
    /// The octets of the base address.
    pub closed spec fn base(&self) -> Seq<u8> {
        self.addr@
    }

    /// The prefix length.
    pub closed spec fn bits(&self) -> u8 {
        self.bits
    }

    /// The range of addresses that share the first `bits` bits of `addr`; the base address is
    /// `addr` with the remaining bits cleared.
    pub fn new(addr: Ipv6Addr, bits: u8) -> (r: Ipv6Range)
        ensures
            r.base() == masked(addr@, bits as int),
            r.bits() == bits,
    {
        Ipv6Range { addr: Ipv6Addr { octets: mask_octets(addr.octets, bits) }, bits }
    }

    /// The range of all IPv6 addresses, `::/0`.
    pub fn global() -> (r: Ipv6Range)
        ensures
            r.base() == Seq::new(16, |i: int| 0u8),
            r.bits() == 0,
    {
        let r = Ipv6Range::new(Ipv6Addr::unspecified(), 0);
        assert(r.base() =~= Seq::new(16, |i: int| 0u8)) by {
            assert forall|i: int| 0 <= i < 16 implies r.base()[i] == 0u8 by {
                assert(0u8 & prefix_mask_byte(0, i) == 0u8) by (bit_vector);
            }
        }
        r
    }

    /// The base address of the range.
    pub fn base_addr(&self) -> (r: Ipv6Addr)
        ensures
            r@ == self.base(),
    {
        self.addr
    }

    /// The length of the range's netmask prefix.
    pub fn netmask_prefix_length(&self) -> (r: u8)
        ensures
            r == self.bits(),
    {
        self.bits
    }
}

} // verus!
