//! MAC address extraction from DHCPv6 relay messages: the configurable
//! methods a deployment may enable, in order of reliability.

use vstd::prelude::*;

use crate::mac::Mac;
use crate::strutil::str_eq;
use crate::v6::{V6MessageV, V6RelayInfoV, V6Message, V6RelayInfo};

verus! {

/// A MAC address extraction method.
#[derive(Clone, Copy, Debug, PartialEq, Eq)]
pub enum MacExtractor {
    /// The RFC 6939 Client Link-Layer Address option added by the relay.
    ClientLinklayerAddress,
    /// The relay's peer address, read back through EUI-64 construction.
    PeerAddrEui64,
    /// The hardware address inside a DUID-LLT or DUID-LL client identifier.
    Duid,
}

/// One byte of an IPv6 address, counting from the most significant.
pub open spec fn ip6_byte(a: u128, i: int) -> u8
    recommends
        0 <= i < 16,
{
    ((a >> (((15 - i) * 8) as u128)) & 0xff) as u8
}

/// What the Client Link-Layer Address option yields: its address bytes,
/// when they are exactly six.
pub open spec fn spec_extract_client_ll(relay: V6RelayInfoV) -> Option<Seq<u8>> {
    match relay.client_ll {
        Some(cll) => if cll.address.len() == 6 {
            Some(cll.address)
        } else {
            None
        },
        None => None,
    }
}

/// What EUI-64 reversal of the relay peer address yields: for a link-local
/// address carrying the ff:fe marker, the six embedded bytes with the
/// universal/local bit flipped back.
pub open spec fn spec_extract_peer_eui64(relay: V6RelayInfoV) -> Option<Seq<u8>> {
    let a = relay.peer_addr;
    if ip6_byte(a, 0) == 0xfe && ip6_byte(a, 1) & 0xc0 == 0x80 && ip6_byte(a, 11) == 0xff
        && ip6_byte(a, 12) == 0xfe {
        Some(
            seq![
                ip6_byte(a, 8) ^ 0x02, ip6_byte(a, 9), ip6_byte(a, 10), ip6_byte(a, 13),
                ip6_byte(a, 14), ip6_byte(a, 15),
            ],
        )
    } else {
        None
    }
}

/// What the client's DUID yields: the hardware address of a DUID-LLT
/// (type 1) or DUID-LL (type 3) with Ethernet hardware type.
pub open spec fn spec_extract_duid_mac(msg: V6MessageV) -> Option<Seq<u8>> {
    match msg.client_id {
        Some(id) => if id.len() < 4 {
            None
        } else if id[2] * 256 + id[3] != 1 {
            None
        } else if id[0] * 256 + id[1] == 1 {
            if id.len() >= 14 {
                Some(id.subrange(8, 14))
            } else {
                None
            }
        } else if id[0] * 256 + id[1] == 3 {
            if id.len() >= 10 {
                Some(id.subrange(4, 10))
            } else {
                None
            }
        } else {
            None
        },
        None => None,
    }
}

impl MacExtractor {
    /// What this method yields on a relay message and inner message.
    pub open spec fn spec_extract(self, relay: V6RelayInfoV, msg: V6MessageV) -> Option<Seq<u8>> {
        match self {
            MacExtractor::ClientLinklayerAddress => spec_extract_client_ll(relay),
            MacExtractor::PeerAddrEui64 => spec_extract_peer_eui64(relay),
            MacExtractor::Duid => spec_extract_duid_mac(msg),
        }
    }

    /// Attempts to extract a MAC address using this method.
    pub fn extract(&self, relay_msg: &V6RelayInfo, msg: &V6Message) -> (r: Option<Mac>)
        ensures
            crate::types::opt_mac_view(r) == self.spec_extract(relay_msg@, msg@),
    {
        match self {
            MacExtractor::ClientLinklayerAddress => extract_client_linklayer_address(relay_msg),
            MacExtractor::PeerAddrEui64 => extract_peer_addr_eui64(relay_msg),
            MacExtractor::Duid => extract_duid(msg),
        }
    }

    /// This method's configuration name.
    pub open spec fn name_spec(self) -> Seq<char> {
        match self {
            MacExtractor::ClientLinklayerAddress => "client_linklayer_address"@,
            MacExtractor::PeerAddrEui64 => "peer_addr_eui64"@,
            MacExtractor::Duid => "duid"@,
        }
    }

    /// The name this method is configured under.
    pub fn name(&self) -> (r: &'static str)
        ensures
            r@ == self.name_spec(),
    {
        match self {
            MacExtractor::ClientLinklayerAddress => "client_linklayer_address",
            MacExtractor::PeerAddrEui64 => "peer_addr_eui64",
            MacExtractor::Duid => "duid",
        }
    }

    /// The method configured under a name, if the name is known.
    pub fn from_name(s: &str) -> (r: Option<MacExtractor>)
        ensures
            match r {
                Some(e) => e.name_spec() == s@,
                None => forall|e: MacExtractor| e.name_spec() != s@,
            },
    {
        if str_eq("client_linklayer_address", s) {
            Some(MacExtractor::ClientLinklayerAddress)
        } else if str_eq("peer_addr_eui64", s) {
            Some(MacExtractor::PeerAddrEui64)
        } else if str_eq("duid", s) {
            Some(MacExtractor::Duid)
        } else {
            assert forall|e: MacExtractor| e.name_spec() != s@ by {
                match e {
                    MacExtractor::ClientLinklayerAddress => {},
                    MacExtractor::PeerAddrEui64 => {},
                    MacExtractor::Duid => {},
                }
            }
            None
        }
    }
}

/// Extracts the MAC from the RFC 6939 Client Link-Layer Address option.
fn extract_client_linklayer_address(relay_msg: &V6RelayInfo) -> (r: Option<Mac>)
    ensures
        crate::types::opt_mac_view(r) == spec_extract_client_ll(relay_msg@),
{
    match &relay_msg.client_ll {
        Some(cll) => {
            if cll.address.len() == 6 {
                let m = Mac::new(
                    [
                        cll.address[0],
                        cll.address[1],
                        cll.address[2],
                        cll.address[3],
                        cll.address[4],
                        cll.address[5],
                    ],
                );
                proof {
                    assert(m@ =~= cll.address@);
                }
                Some(m)
            } else {
                None
            }
        },
        None => None,
    }
}

/// One byte of an IPv6 address, counting from the most significant.
fn ip6_byte_exec(a: u128, i: usize) -> (r: u8)
    requires
        i < 16,
    ensures
        r == ip6_byte(a, i as int),
{
    ((a >> (((15 - i) * 8) as u128)) & 0xff) as u8
}

/// Extracts the MAC from the relay peer address by EUI-64 reversal.
fn extract_peer_addr_eui64(relay_msg: &V6RelayInfo) -> (r: Option<Mac>)
    ensures
        crate::types::opt_mac_view(r) == spec_extract_peer_eui64(relay_msg@),
{
    let a = relay_msg.peer_addr;
    if ip6_byte_exec(a, 0) != 0xfe || (ip6_byte_exec(a, 1) & 0xc0) != 0x80 {
        return None;
    }
    if ip6_byte_exec(a, 11) != 0xff || ip6_byte_exec(a, 12) != 0xfe {
        return None;
    }
    let m = Mac::new(
        [
            ip6_byte_exec(a, 8) ^ 0x02,
            ip6_byte_exec(a, 9),
            ip6_byte_exec(a, 10),
            ip6_byte_exec(a, 13),
            ip6_byte_exec(a, 14),
            ip6_byte_exec(a, 15),
        ],
    );
    proof {
        assert(m@ =~= spec_extract_peer_eui64(relay_msg@)->Some_0);
    }
    Some(m)
}

/// Extracts the MAC from a DUID-LLT or DUID-LL client identifier.
fn extract_duid(msg: &V6Message) -> (r: Option<Mac>)
    ensures
        crate::types::opt_mac_view(r) == spec_extract_duid_mac(msg@),
{
    let id = match &msg.client_id {
        Some(d) => &d.bytes,
        None => {
            return None;
        },
    };
    if id.len() < 4 {
        return None;
    }
    let duid_type: u32 = (id[0] as u32) * 256 + (id[1] as u32);
    let htype: u32 = (id[2] as u32) * 256 + (id[3] as u32);
    if htype != 1 {
        return None;
    }
    if duid_type == 1 {
        if id.len() < 14 {
            return None;
        }
        let m = Mac::new([id[8], id[9], id[10], id[11], id[12], id[13]]);
        proof {
            assert(m@ =~= id@.subrange(8, 14));
        }
        Some(m)
    } else if duid_type == 3 {
        if id.len() < 10 {
            return None;
        }
        let m = Mac::new([id[4], id[5], id[6], id[7], id[8], id[9]]);
        proof {
            assert(m@ =~= id@.subrange(4, 10));
        }
        Some(m)
    } else {
        None
    }
}

} // verus!
