//! IPv4 and IPv6 addresses as plain integers, and IPv4 subnets.
//!
//! An IPv4 address is a `u32`, an IPv6 address a `u128`, both in network
//! order.  A subnet is an address plus a prefix length; containment is the
//! usual masked comparison.

use vstd::prelude::*;

verus! {

/// An IPv4 address built from its four dotted octets.
pub open spec fn spec_ipv4(a: u8, b: u8, c: u8, d: u8) -> u32 {
    ((a as u32) * 0x1000000 + (b as u32) * 0x10000 + (c as u32) * 0x100 + (d as u32)) as u32
}

/// Builds the `u32` form of the dotted address `a.b.c.d`.
pub fn ipv4(a: u8, b: u8, c: u8, d: u8) -> (r: u32)
    ensures
        r == spec_ipv4(a, b, c, d),
{
    (a as u32) * 0x1000000 + (b as u32) * 0x10000 + (c as u32) * 0x100 + (d as u32)
}

/// An IPv6 address built from its eight colon-separated groups.
pub open spec fn spec_ipv6(s: Seq<u16>) -> u128
    recommends
        s.len() == 8,
{
    ((s[0] as u128) * 0x1_0000_0000_0000_0000_0000_0000_0000
        + (s[1] as u128) * 0x1_0000_0000_0000_0000_0000_0000
        + (s[2] as u128) * 0x1_0000_0000_0000_0000_0000
        + (s[3] as u128) * 0x1_0000_0000_0000_0000
        + (s[4] as u128) * 0x1_0000_0000_0000
        + (s[5] as u128) * 0x1_0000_0000
        + (s[6] as u128) * 0x1_0000
        + (s[7] as u128)) as u128
}

/// Builds the `u128` form of an IPv6 address from its eight groups.
pub fn ipv6(g0: u16, g1: u16, g2: u16, g3: u16, g4: u16, g5: u16, g6: u16, g7: u16) -> (r: u128)
    ensures
        r == spec_ipv6(seq![g0, g1, g2, g3, g4, g5, g6, g7]),
{
    (g0 as u128) * 0x1_0000_0000_0000_0000_0000_0000_0000
        + (g1 as u128) * 0x1_0000_0000_0000_0000_0000_0000
        + (g2 as u128) * 0x1_0000_0000_0000_0000_0000
        + (g3 as u128) * 0x1_0000_0000_0000_0000
        + (g4 as u128) * 0x1_0000_0000_0000
        + (g5 as u128) * 0x1_0000_0000
        + (g6 as u128) * 0x1_0000
        + (g7 as u128)
}

/// The netmask of an IPv4 prefix length: the top `len` bits set.
pub open spec fn spec_netmask(len: u8) -> u32
    recommends
        len <= 32,
{
    if len == 0 {
        0u32
    } else {
        (0xffff_ffffu32 << ((32 - len) as u32)) as u32
    }
}

/// Computes the dotted-quad netmask of a prefix length.
pub fn netmask(len: u8) -> (r: u32)
    requires
        len <= 32,
    ensures
        r == spec_netmask(len),
{
    if len == 0 {
        0u32
    } else {
        0xffff_ffffu32 << ((32 - len) as u32)
    }
}

/// One configured IPv4 subnet: the network, the gateway handed to clients,
/// and an optional override for the prefix length announced in replies.
#[derive(Clone, Copy, Debug, PartialEq, Eq)]
pub struct V4Subnet {
    pub net_addr: u32,
    pub prefix_len: u8,
    pub gateway: u32,
    pub reply_prefix_len: Option<u8>,
}

impl V4Subnet {
    /// A subnet is well formed when both prefix lengths fit an IPv4 address.
    pub open spec fn wf(self) -> bool {
        &&& self.prefix_len <= 32
        &&& match self.reply_prefix_len {
            Some(l) => l <= 32,
            None => true,
        }
    }

    /// Whether `ip` lies in this subnet: equal under the subnet's mask.
    pub open spec fn spec_contains(self, ip: u32) -> bool {
        ip & spec_netmask(self.prefix_len) == self.net_addr & spec_netmask(self.prefix_len)
    }

    /// Tests whether `ip` lies in this subnet.
    pub fn contains(&self, ip: u32) -> (r: bool)
        requires
            self.wf(),
        ensures
            r == self.spec_contains(ip),
    {
        let mask = netmask(self.prefix_len);
        ip & mask == self.net_addr & mask
    }

    /// The prefix length announced in replies: the override if one is
    /// configured, else the subnet's own.
    pub open spec fn spec_reply_len(self) -> u8 {
        match self.reply_prefix_len {
            Some(l) => l,
            None => self.prefix_len,
        }
    }

    /// The subnet mask announced in replies.
    pub fn reply_mask(&self) -> (r: u32)
        requires
            self.wf(),
        ensures
            r == spec_netmask(self.spec_reply_len()),
    {
        match self.reply_prefix_len {
            Some(l) => netmask(l),
            None => netmask(self.prefix_len),
        }
    }
}

/// The first subnet of `subnets` that contains `ip`, if any.
pub open spec fn spec_find_subnet(subnets: Seq<V4Subnet>, ip: u32) -> Option<V4Subnet>
    decreases subnets.len(),
{
    if subnets.len() == 0 {
        None
    } else if subnets[0].spec_contains(ip) {
        Some(subnets[0])
    } else {
        spec_find_subnet(subnets.drop_first(), ip)
    }
}

/// Finds the first configured subnet that contains `ip`.
pub fn find_subnet(subnets: &Vec<V4Subnet>, ip: u32) -> (r: Option<V4Subnet>)
    requires
        forall|i: int| 0 <= i < subnets@.len() ==> (#[trigger] subnets@[i]).wf(),
    ensures
        r == spec_find_subnet(subnets@, ip),
        r matches Some(s) ==> s.wf() && s.spec_contains(ip),
{
    let ghost all = subnets@;
    proof {
        assert(all.skip(0) =~= all);
    }
    for i in 0..subnets.len()
        invariant
            all == subnets@,
            forall|j: int| 0 <= j < subnets@.len() ==> (#[trigger] subnets@[j]).wf(),
            forall|j: int| 0 <= j < i ==> !(#[trigger] subnets@[j]).spec_contains(ip),
            spec_find_subnet(all, ip) == spec_find_subnet(all.skip(i as int), ip),
    {
        proof {
            assert(all.skip(i as int)[0] == subnets@[i as int]);
            assert(all.skip(i as int).drop_first() =~= all.skip(i as int + 1));
        }
        if subnets[i].contains(ip) {
            return Some(subnets[i]);
        }
    }
    proof {
        assert(all.skip(subnets@.len() as int) =~= Seq::<V4Subnet>::empty());
    }
    None
}

/// Copies a vector of addresses.
pub fn clone_u32s(v: &Vec<u32>) -> (r: Vec<u32>)
    ensures
        r@ == v@,
{
    let r = v.clone();
    proof {
        assert(r@ =~= v@);
    }
    r
}

} // verus!
