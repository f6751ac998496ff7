//! The DHCPv4 server core: the message model and the DISCOVER / REQUEST
//! handlers, RFC 2131 style.
//!
//! Every response is a BootReply that echoes the transaction id and the
//! client hardware address and preserves the relay address and the
//! client's flags; a NAK zeroes `yiaddr` and is flagged for broadcast when
//! the request was relayed.

use vstd::prelude::*;
use vstd::string::StringExecFns;

use crate::config::{Config, ConfigV};
use crate::extractors::Option82Extractor;
use crate::index::{ReservationDb, ReservationKeyV};
use crate::leasedb::LeaseDb;
use crate::mac::Mac;
use crate::net::{spec_find_subnet, spec_netmask, find_subnet, V4Subnet};
use crate::resolve::ReservationMatch;
use crate::strutil::{bytes_clone, string_from_utf8};
use crate::types::{Option82, Option82V, Reservation, ReservationV, V4KeyV};

verus! {

/// The address lease time granted on v4 assignments, in seconds.
pub const ADDRESS_LEASE_TIME: u32 = 3600;

/// T1, when the client starts renewing: half the lease time.
pub const RENEWAL_TIME: u32 = ADDRESS_LEASE_TIME / 2;

/// T2, when the client starts rebinding: seven eighths of the lease time.
pub const REBINDING_TIME: u32 = ADDRESS_LEASE_TIME * 7 / 8;

/// The v4 lease validity in milliseconds.
pub const ADDRESS_LEASE_TIME_MS: u64 = 3_600_000;

/// The broadcast bit of the flags field.
pub const FLAG_BROADCAST: u16 = 0x8000;

/// A BOOTP opcode.
#[derive(Clone, Copy, Debug, PartialEq, Eq)]
pub enum V4Opcode {
    BootRequest,
    BootReply,
    Unknown(u8),
}

/// A DHCPv4 message type.
#[derive(Clone, Copy, Debug, PartialEq, Eq)]
pub enum V4MessageType {
    Discover,
    Offer,
    Request,
    Decline,
    Ack,
    Nak,
    Release,
    Inform,
    Unknown(u8),
}

/// The relay agent information option (Option 82), as raw subfields.
#[derive(Debug)]
pub struct RelayAgentInfo {
    pub circuit_id: Option<Vec<u8>>,
    pub remote_id: Option<Vec<u8>>,
    pub subscriber_id: Option<Vec<u8>>,
}

/// The abstract value of a [`RelayAgentInfo`].
pub struct RelayAgentInfoV {
    pub circuit_id: Option<Seq<u8>>,
    pub remote_id: Option<Seq<u8>>,
    pub subscriber_id: Option<Seq<u8>>,
}

impl View for RelayAgentInfo {
    type V = RelayAgentInfoV;

    open spec fn view(&self) -> RelayAgentInfoV {
        RelayAgentInfoV {
            circuit_id: match self.circuit_id {
                Some(ref b) => Some(b@),
                None => None,
            },
            remote_id: match self.remote_id {
                Some(ref b) => Some(b@),
                None => None,
            },
            subscriber_id: match self.subscriber_id {
                Some(ref b) => Some(b@),
                None => None,
            },
        }
    }
}

/// A DHCPv4 message, reduced to the fields and options this server reads
/// and writes.
#[derive(Debug)]
pub struct V4Message {
    pub op: V4Opcode,
    pub xid: u32,
    pub secs: u16,
    pub flags: u16,
    pub ciaddr: u32,
    pub yiaddr: u32,
    pub siaddr: u32,
    pub giaddr: u32,
    pub chaddr: Vec<u8>,
    pub sname: Option<String>,
    pub message_type: Option<V4MessageType>,
    pub server_id: Option<u32>,
    pub requested_ip: Option<u32>,
    pub subnet_mask: Option<u32>,
    pub routers: Option<Vec<u32>>,
    pub dns_servers: Option<Vec<u32>>,
    pub lease_time: Option<u32>,
    pub renewal: Option<u32>,
    pub rebinding: Option<u32>,
    pub relay_agent_info: Option<RelayAgentInfo>,
}

/// The abstract value of a [`V4Message`].
pub struct V4MessageV {
    pub op: V4Opcode,
    pub xid: u32,
    pub secs: u16,
    pub flags: u16,
    pub ciaddr: u32,
    pub yiaddr: u32,
    pub siaddr: u32,
    pub giaddr: u32,
    pub chaddr: Seq<u8>,
    pub sname: Option<Seq<char>>,
    pub message_type: Option<V4MessageType>,
    pub server_id: Option<u32>,
    pub requested_ip: Option<u32>,
    pub subnet_mask: Option<u32>,
    pub routers: Option<Seq<u32>>,
    pub dns_servers: Option<Seq<u32>>,
    pub lease_time: Option<u32>,
    pub renewal: Option<u32>,
    pub rebinding: Option<u32>,
    pub relay_agent_info: Option<RelayAgentInfoV>,
}

impl View for V4Message {
    type V = V4MessageV;

    open spec fn view(&self) -> V4MessageV {
        V4MessageV {
            op: self.op,
            xid: self.xid,
            secs: self.secs,
            flags: self.flags,
            ciaddr: self.ciaddr,
            yiaddr: self.yiaddr,
            siaddr: self.siaddr,
            giaddr: self.giaddr,
            chaddr: self.chaddr@,
            sname: crate::types::opt_str_view(self.sname),
            message_type: self.message_type,
            server_id: self.server_id,
            requested_ip: self.requested_ip,
            subnet_mask: self.subnet_mask,
            routers: match self.routers {
                Some(ref v) => Some(v@),
                None => None,
            },
            dns_servers: match self.dns_servers {
                Some(ref v) => Some(v@),
                None => None,
            },
            lease_time: self.lease_time,
            renewal: self.renewal,
            rebinding: self.rebinding,
            relay_agent_info: match self.relay_agent_info {
                Some(ref r) => Some(r@),
                None => None,
            },
        }
    }
}

impl V4MessageType {
    /// The name recorded in events.
    pub open spec fn str_spec(self) -> Seq<char> {
        match self {
            V4MessageType::Ack => "Ack"@,
            V4MessageType::Discover => "Discover"@,
            V4MessageType::Offer => "Offer"@,
            V4MessageType::Request => "Request"@,
            V4MessageType::Decline => "Decline"@,
            V4MessageType::Nak => "Nak"@,
            V4MessageType::Release => "Release"@,
            _ => "Unknown"@,
        }
    }

    /// The name recorded in events.
    pub fn as_str(&self) -> (r: &'static str)
        ensures
            r@ == self.str_spec(),
    {
        match self {
            V4MessageType::Ack => "Ack",
            V4MessageType::Discover => "Discover",
            V4MessageType::Offer => "Offer",
            V4MessageType::Request => "Request",
            V4MessageType::Decline => "Decline",
            V4MessageType::Nak => "Nak",
            V4MessageType::Release => "Release",
            _ => "Unknown",
        }
    }
}

/// Why the server stayed silent on a DHCPv4 request.
#[derive(Debug, Clone, Copy, PartialEq, Eq)]
pub enum NoResponse {
    NoReservation,
    NoValidMac,
    NoServerSubnet,
    Discarded,
    WrongServerId,
    NoMessageType,
}

impl NoResponse {
    /// The reason name recorded in failure events.
    pub open spec fn str_spec(self) -> Seq<char> {
        match self {
            NoResponse::NoReservation => "NoReservation"@,
            NoResponse::NoValidMac => "NoValidMac"@,
            NoResponse::NoServerSubnet => "NoServerSubnet"@,
            NoResponse::Discarded => "Discarded"@,
            NoResponse::WrongServerId => "WrongServerId"@,
            NoResponse::NoMessageType => "NoMessageType"@,
        }
    }

    /// The reason name recorded in failure events.
    pub fn as_str(&self) -> (r: &'static str)
        ensures
            r@ == self.str_spec(),
    {
        match self {
            NoResponse::NoReservation => "NoReservation",
            NoResponse::NoValidMac => "NoValidMac",
            NoResponse::NoServerSubnet => "NoServerSubnet",
            NoResponse::Discarded => "Discarded",
            NoResponse::WrongServerId => "WrongServerId",
            NoResponse::NoMessageType => "NoMessageType",
        }
    }
}

/// A DHCPv4 response message, with the reservation behind it for
/// observability.
pub struct ResponseMessage {
    pub message: V4Message,
    pub reservation: Option<Reservation>,
    pub reservation_match: Option<ReservationMatch>,
}

/// The handler decides: send a message, or stay silent for a reason.
pub enum DhcpV4Response {
    Message(ResponseMessage),
    NoResponse(NoResponse),
}

/// The view of the reservation a response carries.
pub open spec fn opt_res_view(o: Option<Reservation>) -> Option<ReservationV> {
    match o {
        Some(res) => Some(res@),
        None => None,
    }
}

/// The client hardware address, when `chaddr` holds exactly six bytes.
pub open spec fn spec_msg_mac(msg: V4MessageV) -> Option<Seq<u8>> {
    if msg.chaddr.len() == 6 {
        Some(msg.chaddr)
    } else {
        None
    }
}

/// One Option 82 subfield as a lookup string: present when the raw value
/// is non-empty and valid UTF-8.
pub open spec fn spec_opt82_subfield(o: Option<Seq<u8>>) -> Option<Seq<char>> {
    match o {
        Some(b) => if b.len() > 0 && vstd::utf8::valid_utf8(b) {
            Some(vstd::utf8::decode_utf8(b))
        } else {
            None
        },
        None => None,
    }
}

/// The Option 82 lookup value carried by the relay agent information.
pub open spec fn spec_opt82_of_relay(ri: RelayAgentInfoV) -> Option82V {
    Option82V {
        circuit: spec_opt82_subfield(ri.circuit_id),
        remote: spec_opt82_subfield(ri.remote_id),
        subscriber: spec_opt82_subfield(ri.subscriber_id),
    }
}

/// Builds one Option 82 subfield from its raw bytes.
fn opt82_subfield(o: &Option<Vec<u8>>) -> (r: Option<String>)
    ensures
        crate::types::opt_str_view(r) == spec_opt82_subfield(
            match o {
                Some(b) => Some(b@),
                None => None,
            },
        ),
{
    match o {
        Some(b) => {
            if b.len() > 0 {
                string_from_utf8(bytes_clone(b))
            } else {
                None
            }
        },
        None => None,
    }
}

/// Builds the Option 82 lookup value from the relay agent information.
pub fn opt82_of_relay(ri: &RelayAgentInfo) -> (r: Option82)
    ensures
        r@ == spec_opt82_of_relay(ri@),
{
    Option82 {
        circuit: opt82_subfield(&ri.circuit_id),
        remote: opt82_subfield(&ri.remote_id),
        subscriber: opt82_subfield(&ri.subscriber_id),
    }
}

/// Finds a reservation for an extracted Option 82 value: the first
/// configured extractor whose key is on file wins.
pub open spec fn spec_find_by_relay_82(
    rm: Map<ReservationKeyV, ReservationV>,
    exs: Seq<Option82Extractor>,
    o: Option82V,
) -> Option<(ReservationV, ReservationMatch)>
    decreases exs.len(),
{
    if exs.len() == 0 {
        None
    } else {
        match exs[0].spec_apply(o) {
            Some(k) => if rm.contains_key(ReservationKeyV::Opt82(k)) {
                Some((rm[ReservationKeyV::Opt82(k)], ReservationMatch::Option82(exs[0])))
            } else {
                spec_find_by_relay_82(rm, exs.drop_first(), o)
            },
            None => spec_find_by_relay_82(rm, exs.drop_first(), o),
        }
    }
}

/// The view of an optional resolver result.
pub open spec fn opt_found_view(
    o: Option<(Reservation, ReservationMatch)>,
) -> Option<(ReservationV, ReservationMatch)> {
    match o {
        Some((res, m)) => Some((res@, m)),
        None => None,
    }
}

/// Attempts each configured Option 82 extractor in order against the relay
/// agent information, and looks the extracted key up.
pub fn find_reservation_by_relay_info(
    reservations: &ReservationDb,
    extractors: &Vec<Option82Extractor>,
    relay: &RelayAgentInfo,
) -> (r: Option<(Reservation, ReservationMatch)>)
    ensures
        opt_found_view(r) == spec_find_by_relay_82(
            reservations@,
            extractors@,
            spec_opt82_of_relay(relay@),
        ),
{
    let option = opt82_of_relay(relay);
    let ghost all = extractors@;
    let ghost o = option@;
    proof {
        assert(all.skip(0) =~= all);
    }
    for i in 0..extractors.len()
        invariant
            all == extractors@,
            o == option@,
            spec_find_by_relay_82(reservations@, all, o) == spec_find_by_relay_82(
                reservations@,
                all.skip(i as int),
                o,
            ),
    {
        proof {
            assert(all.skip(i as int)[0] == all[i as int]);
            assert(all.skip(i as int).drop_first() =~= all.skip(i as int + 1));
        }
        if let Some(extracted) = extractors[i].apply(&option) {
            if let Some(res) = reservations.by_opt82(&extracted) {
                return Some((res, ReservationMatch::Option82(extractors[i])));
            }
        }
    }
    proof {
        assert(all.skip(extractors@.len() as int) =~= Seq::<Option82Extractor>::empty());
    }
    None
}

/// The DHCPv4 resolver ladder: the client's MAC first, then the Option 82
/// extractors against the relay agent information.
pub open spec fn spec_find_reservation_v4(
    rm: Map<ReservationKeyV, ReservationV>,
    exs: Seq<Option82Extractor>,
    mac: Seq<u8>,
    relay: Option<RelayAgentInfoV>,
) -> Option<(ReservationV, ReservationMatch)> {
    if rm.contains_key(ReservationKeyV::Mac(mac)) {
        Some((rm[ReservationKeyV::Mac(mac)], ReservationMatch::Mac))
    } else {
        match relay {
            Some(ri) => spec_find_by_relay_82(rm, exs, spec_opt82_of_relay(ri)),
            None => None,
        }
    }
}

/// Resolves a reservation for a DHCPv4 request: the MAC address first,
/// else the Option 82 extractors in configured order.
pub fn find_reservation(
    reservations: &ReservationDb,
    extractors: &Vec<Option82Extractor>,
    mac_addr: Mac,
    relay: Option<&RelayAgentInfo>,
) -> (r: Option<(Reservation, ReservationMatch)>)
    ensures
        opt_found_view(r) == spec_find_reservation_v4(
            reservations@,
            extractors@,
            mac_addr@,
            match relay {
                Some(ri) => Some(ri@),
                None => None,
            },
        ),
{
    if let Some(res) = reservations.by_mac(mac_addr) {
        return Some((res, ReservationMatch::Mac));
    }
    match relay {
        Some(relay_info) => find_reservation_by_relay_info(reservations, extractors, relay_info),
        None => None,
    }
}

/// The hostname announced in replies.
pub open spec fn spec_server_name() -> Seq<char> {
    "dhcp.shadowinter.net"@
}

/// The OFFER or ACK answering a request: a BootReply that echoes the
/// transaction id and hardware address, preserves the relay address and
/// flags, assigns the reserved address, and carries the mask, router, DNS
/// and timer options.
pub open spec fn spec_v4_reply(
    cfg: ConfigV,
    msg: V4MessageV,
    res: ReservationV,
    subnet: V4Subnet,
    mt: V4MessageType,
) -> V4MessageV {
    V4MessageV {
        op: V4Opcode::BootReply,
        xid: msg.xid,
        secs: 0,
        flags: msg.flags,
        ciaddr: 0,
        yiaddr: res.ipv4,
        siaddr: 0,
        giaddr: msg.giaddr,
        chaddr: msg.chaddr,
        sname: Some(spec_server_name()),
        message_type: Some(mt),
        server_id: Some(cfg.v4_server_id),
        requested_ip: None,
        subnet_mask: Some(spec_netmask(subnet.spec_reply_len())),
        routers: Some(seq![subnet.gateway]),
        dns_servers: Some(cfg.dns_v4),
        lease_time: Some(ADDRESS_LEASE_TIME),
        renewal: Some(RENEWAL_TIME),
        rebinding: Some(REBINDING_TIME),
        relay_agent_info: None,
    }
}

/// The NAK refusing a request: a BootReply with `yiaddr` zero, only the
/// message type and server identifier set, and the broadcast flag added
/// when the request was relayed.
pub open spec fn spec_v4_nak(cfg: ConfigV, msg: V4MessageV) -> V4MessageV {
    V4MessageV {
        op: V4Opcode::BootReply,
        xid: msg.xid,
        secs: 0,
        flags: if msg.giaddr != 0 {
            msg.flags | FLAG_BROADCAST
        } else {
            msg.flags
        },
        ciaddr: 0,
        yiaddr: 0,
        siaddr: 0,
        giaddr: msg.giaddr,
        chaddr: msg.chaddr,
        sname: Some(spec_server_name()),
        message_type: Some(V4MessageType::Nak),
        server_id: Some(cfg.v4_server_id),
        requested_ip: None,
        subnet_mask: None,
        routers: None,
        dns_servers: None,
        lease_time: None,
        renewal: None,
        rebinding: None,
        relay_agent_info: None,
    }
}

/// The four DHCPREQUEST shapes, from the server id, `ciaddr` and the
/// requested address option — or the two ways a request is refused.
pub enum V4RequestVariant {
    /// SELECTING with our server id: the requested address is checked.
    Requested(u32),
    /// SELECTING addressed to another server: stay silent.
    WrongServer,
    /// None of the four shapes: stay silent.
    Unrecognized,
}

/// Classifies a DHCPREQUEST: SELECTING, INIT-REBOOT and RENEW/REBINDING
/// yield the address the client claims; a SELECTING for another server or
/// an unrecognized shape is refused.
pub open spec fn spec_classify_request(cfg: ConfigV, msg: V4MessageV) -> V4RequestVariant {
    match (msg.server_id, msg.requested_ip) {
        (Some(sid), Some(req)) => if msg.ciaddr == 0 {
            if sid == cfg.v4_server_id {
                V4RequestVariant::Requested(req)
            } else {
                V4RequestVariant::WrongServer
            }
        } else {
            V4RequestVariant::Unrecognized
        },
        (None, Some(req)) => if msg.ciaddr == 0 {
            V4RequestVariant::Requested(req)
        } else {
            V4RequestVariant::Unrecognized
        },
        (None, None) => if msg.ciaddr != 0 {
            V4RequestVariant::Requested(msg.ciaddr)
        } else {
            V4RequestVariant::Unrecognized
        },
        _ => V4RequestVariant::Unrecognized,
    }
}

/// What DISCOVER yields: silence without a six-byte hardware address,
/// without a reservation, or without a serving subnet; else an OFFER.
pub open spec fn spec_discover_post(
    cfg: ConfigV,
    reservations: &ReservationDb,
    msg: &V4Message,
    r: &DhcpV4Response,
) -> bool {
    match spec_msg_mac(msg@) {
        None => r is NoResponse && r->NoResponse_0 == NoResponse::NoValidMac,
        Some(mac) => match spec_find_reservation_v4(
            reservations@,
            cfg.option82_extractors,
            mac,
            msg@.relay_agent_info,
        ) {
            None => r is NoResponse && r->NoResponse_0 == NoResponse::NoReservation,
            Some((res, mtch)) => match spec_find_subnet(cfg.subnets_v4, res.ipv4) {
                None => r is NoResponse && r->NoResponse_0 == NoResponse::NoServerSubnet,
                Some(subnet) => {
                    &&& r is Message
                    &&& r->Message_0.message@ == spec_v4_reply(
                        cfg,
                        msg@,
                        res,
                        subnet,
                        V4MessageType::Offer,
                    )
                    &&& opt_res_view(r->Message_0.reservation) == Some(res)
                    &&& r->Message_0.reservation_match == Some(mtch)
                },
            },
        },
    }
}

/// What REQUEST yields: the variant discipline first — anything not
/// matching the four shapes is discarded, a foreign SELECTING draws
/// WrongServerId silence — then the same silence ladder as DISCOVER, and
/// an ACK when the claimed address is the reserved one, else a NAK.
pub open spec fn spec_request_post(
    cfg: ConfigV,
    reservations: &ReservationDb,
    msg: &V4Message,
    r: &DhcpV4Response,
) -> bool {
    match spec_classify_request(cfg, msg@) {
        V4RequestVariant::WrongServer => r is NoResponse && r->NoResponse_0
            == NoResponse::WrongServerId,
        V4RequestVariant::Unrecognized => r is NoResponse && r->NoResponse_0
            == NoResponse::Discarded,
        V4RequestVariant::Requested(req) => match spec_msg_mac(msg@) {
            None => r is NoResponse && r->NoResponse_0 == NoResponse::NoValidMac,
            Some(mac) => match spec_find_reservation_v4(
                reservations@,
                cfg.option82_extractors,
                mac,
                msg@.relay_agent_info,
            ) {
                None => r is NoResponse && r->NoResponse_0 == NoResponse::NoReservation,
                Some((res, mtch)) => match spec_find_subnet(cfg.subnets_v4, res.ipv4) {
                    None => r is NoResponse && r->NoResponse_0 == NoResponse::NoServerSubnet,
                    Some(subnet) => {
                        &&& r is Message
                        &&& r->Message_0.message@ == if req == res.ipv4 {
                            spec_v4_reply(cfg, msg@, res, subnet, V4MessageType::Ack)
                        } else {
                            spec_v4_nak(cfg, msg@)
                        }
                        &&& opt_res_view(r->Message_0.reservation) == Some(res)
                        &&& r->Message_0.reservation_match == Some(mtch)
                    },
                },
            },
        },
    }
}

/// The Option 82 value a reservation is keyed under, when its DHCPv4 key
/// is an Option 82 key.
pub open spec fn spec_res_opt82_key(res: ReservationV) -> Option<Option82V> {
    match res.mac {
        Some(_) => None,
        None => res.option82,
    }
}

/// Whether a REQUEST ends in an ACK, committing a lease.
pub open spec fn spec_request_acks(
    cfg: ConfigV,
    reservations: &ReservationDb,
    msg: &V4Message,
) -> bool {
    match spec_classify_request(cfg, msg@) {
        V4RequestVariant::Requested(req) => match spec_msg_mac(msg@) {
            None => false,
            Some(mac) => match spec_find_reservation_v4(
                reservations@,
                cfg.option82_extractors,
                mac,
                msg@.relay_agent_info,
            ) {
                None => false,
                Some((res, mtch)) => match spec_find_subnet(cfg.subnets_v4, res.ipv4) {
                    None => false,
                    Some(subnet) => req == res.ipv4,
                },
            },
        },
        _ => false,
    }
}

/// The reservation a REQUEST resolves to, assuming one exists.
pub open spec fn spec_request_res(
    cfg: ConfigV,
    reservations: &ReservationDb,
    msg: &V4Message,
) -> ReservationV {
    spec_find_reservation_v4(
        reservations@,
        cfg.option82_extractors,
        spec_msg_mac(msg@)->Some_0,
        msg@.relay_agent_info,
    )->Some_0.0
}

/// Builds an OFFER or ACK.
fn build_v4_reply(
    config: &Config,
    msg: &V4Message,
    reservation: &Reservation,
    subnet: &V4Subnet,
    mt: V4MessageType,
) -> (r: V4Message)
    requires
        subnet.wf(),
    ensures
        r@ == spec_v4_reply(config@, msg@, reservation@, *subnet, mt),
{
    let routers: Vec<u32> = vec![subnet.gateway];
    let dns = crate::net::clone_u32s(&config.dns_v4);
    let r = V4Message {
        op: V4Opcode::BootReply,
        xid: msg.xid,
        secs: 0,
        flags: msg.flags,
        ciaddr: 0,
        yiaddr: reservation.ipv4,
        siaddr: 0,
        giaddr: msg.giaddr,
        chaddr: bytes_clone(&msg.chaddr),
        sname: Some(String::from_str("dhcp.shadowinter.net")),
        message_type: Some(mt),
        server_id: Some(config.v4_server_id),
        requested_ip: None,
        subnet_mask: Some(subnet.reply_mask()),
        routers: Some(routers),
        dns_servers: Some(dns),
        lease_time: Some(ADDRESS_LEASE_TIME),
        renewal: Some(RENEWAL_TIME),
        rebinding: Some(REBINDING_TIME),
        relay_agent_info: None,
    };
    proof {
        let spec = spec_v4_reply(config@, msg@, reservation@, *subnet, mt);
        assert(r@.routers->Some_0 =~= spec.routers->Some_0);
    }
    r
}

/// Builds a NAK.
fn build_v4_nak(config: &Config, msg: &V4Message) -> (r: V4Message)
    ensures
        r@ == spec_v4_nak(config@, msg@),
{
    V4Message {
        op: V4Opcode::BootReply,
        xid: msg.xid,
        secs: 0,
        flags: if msg.giaddr != 0 {
            msg.flags | FLAG_BROADCAST
        } else {
            msg.flags
        },
        ciaddr: 0,
        yiaddr: 0,
        siaddr: 0,
        giaddr: msg.giaddr,
        chaddr: bytes_clone(&msg.chaddr),
        sname: Some(String::from_str("dhcp.shadowinter.net")),
        message_type: Some(V4MessageType::Nak),
        server_id: Some(config.v4_server_id),
        requested_ip: None,
        subnet_mask: None,
        routers: None,
        dns_servers: None,
        lease_time: None,
        renewal: None,
        rebinding: None,
        relay_agent_info: None,
    }
}

/// The client hardware address, when `chaddr` holds exactly six bytes.
fn msg_mac(msg: &V4Message) -> (r: Option<Mac>)
    ensures
        crate::types::opt_mac_view(r) == spec_msg_mac(msg@),
{
    if msg.chaddr.len() == 6 {
        let m = Mac::new(
            [
                msg.chaddr[0],
                msg.chaddr[1],
                msg.chaddr[2],
                msg.chaddr[3],
                msg.chaddr[4],
                msg.chaddr[5],
            ],
        );
        proof {
            assert(m@ =~= msg.chaddr@);
        }
        Some(m)
    } else {
        None
    }
}

/// Handles DISCOVER: resolves a reservation, checks the serving subnet,
/// and answers with an OFFER.  The lease cache is not touched.
fn handle_discover(
    config: &Config,
    reservations: &ReservationDb,
    msg: &V4Message,
) -> (r: DhcpV4Response)
    requires
        config.wf(),
    ensures
        spec_discover_post(config@, reservations, msg, &r),
{
    let mac_addr = match msg_mac(msg) {
        Some(m) => m,
        None => {
            return DhcpV4Response::NoResponse(NoResponse::NoValidMac);
        },
    };
    let (reservation, match_info) = match find_reservation(
        reservations,
        &config.option82_extractors,
        mac_addr,
        msg.relay_agent_info.as_ref(),
    ) {
        Some(found) => found,
        None => {
            return DhcpV4Response::NoResponse(NoResponse::NoReservation);
        },
    };
    let subnet = match find_subnet(&config.subnets_v4, reservation.ipv4) {
        Some(s) => s,
        None => {
            return DhcpV4Response::NoResponse(NoResponse::NoServerSubnet);
        },
    };
    let reply = build_v4_reply(config, msg, &reservation, &subnet, V4MessageType::Offer);
    DhcpV4Response::Message(
        ResponseMessage {
            message: reply,
            reservation: Some(reservation),
            reservation_match: Some(match_info),
        },
    )
}

/// Handles REQUEST: classifies the request first — an unrecognized shape
/// or a foreign SELECTING is silence — then resolves a reservation and
/// subnet, and answers with an ACK — committing a lease and, on an
/// Option 82 key, a MAC binding — or with a NAK.
fn handle_request(
    config: &Config,
    reservations: &ReservationDb,
    leases: &mut LeaseDb,
    msg: &V4Message,
    now: u64,
) -> (r: DhcpV4Response)
    requires
        config.wf(),
        old(leases).wf(),
    ensures
        final(leases).wf(),
        spec_request_post(config@, reservations, msg, &r),
        final(leases).v6@ == old(leases).v6@,
        spec_request_acks(config@, reservations, msg) ==> {
            let res = spec_request_res(config@, reservations, msg);
            let mac = spec_msg_mac(msg@)->Some_0;
            &&& final(leases).v4_map() == old(leases).spec_lease_v4(
                res,
                mac,
                spec_res_opt82_key(res),
                ADDRESS_LEASE_TIME_MS,
                now,
            )
            &&& final(leases).binding_map() == match spec_res_opt82_key(res) {
                Some(o) => old(leases).spec_insert_binding(mac, o, now),
                None => old(leases).binding_map(),
            }
        },
        !spec_request_acks(config@, reservations, msg) ==> *final(leases) == *old(leases),
{
    let client_requested_ip: u32 = match (msg.server_id, msg.ciaddr, msg.requested_ip) {
        (Some(sid), ci, Some(req)) => {
            if ci != 0 {
                return DhcpV4Response::NoResponse(NoResponse::Discarded);
            }
            if sid != config.v4_server_id {
                return DhcpV4Response::NoResponse(NoResponse::WrongServerId);
            }
            req
        },
        (None, ci, Some(req)) => {
            if ci != 0 {
                return DhcpV4Response::NoResponse(NoResponse::Discarded);
            }
            req
        },
        (None, ci, None) => {
            if ci == 0 {
                return DhcpV4Response::NoResponse(NoResponse::Discarded);
            }
            ci
        },
        _ => {
            return DhcpV4Response::NoResponse(NoResponse::Discarded);
        },
    };
    let mac_addr = match msg_mac(msg) {
        Some(m) => m,
        None => {
            return DhcpV4Response::NoResponse(NoResponse::NoValidMac);
        },
    };
    let (reservation, match_info) = match find_reservation(
        reservations,
        &config.option82_extractors,
        mac_addr,
        msg.relay_agent_info.as_ref(),
    ) {
        Some(found) => found,
        None => {
            return DhcpV4Response::NoResponse(NoResponse::NoReservation);
        },
    };
    let subnet = match find_subnet(&config.subnets_v4, reservation.ipv4) {
        Some(s) => s,
        None => {
            return DhcpV4Response::NoResponse(NoResponse::NoServerSubnet);
        },
    };
    if client_requested_ip == reservation.ipv4 {
        let opt82 = match reservation.v4_key() {
            Some(crate::types::V4Key::Option82(o)) => Some(o),
            _ => None,
        };
        leases.lease_v4(&reservation, mac_addr, opt82, ADDRESS_LEASE_TIME_MS, now);
        let reply = build_v4_reply(config, msg, &reservation, &subnet, V4MessageType::Ack);
        DhcpV4Response::Message(
            ResponseMessage {
                message: reply,
                reservation: Some(reservation),
                reservation_match: Some(match_info),
            },
        )
    } else {
        let reply = build_v4_nak(config, msg);
        DhcpV4Response::Message(
            ResponseMessage {
                message: reply,
                reservation: Some(reservation),
                reservation_match: Some(match_info),
            },
        )
    }
}

/// Dispatches a DHCPv4 message: only BootRequest DISCOVER and REQUEST are
/// answered; a BootRequest without a message type, and every other type or
/// opcode, is silently dropped.
pub fn handle_message(
    config: &Config,
    reservations: &ReservationDb,
    leases: &mut LeaseDb,
    msg: &V4Message,
    now: u64,
) -> (r: DhcpV4Response)
    requires
        config.wf(),
        old(leases).wf(),
    ensures
        final(leases).wf(),
        final(leases).v6@ == old(leases).v6@,
        msg@.op == V4Opcode::BootRequest && msg@.message_type is None ==> (r is NoResponse
            && r->NoResponse_0 == NoResponse::NoMessageType && *final(leases) == *old(leases)),
        msg@.op != V4Opcode::BootRequest ==> (r is NoResponse && r->NoResponse_0
            == NoResponse::Discarded && *final(leases) == *old(leases)),
        msg@.op == V4Opcode::BootRequest && msg@.message_type == Some(V4MessageType::Discover)
            ==> (spec_discover_post(config@, reservations, msg, &r) && *final(leases) == *old(
            leases,
        )),
        msg@.op == V4Opcode::BootRequest && msg@.message_type == Some(V4MessageType::Request) ==> (
        spec_request_post(config@, reservations, msg, &r) && (spec_request_acks(
            config@,
            reservations,
            msg,
        ) ==> {
            let res = spec_request_res(config@, reservations, msg);
            let mac = spec_msg_mac(msg@)->Some_0;
            &&& final(leases).v4_map() == old(leases).spec_lease_v4(
                res,
                mac,
                spec_res_opt82_key(res),
                ADDRESS_LEASE_TIME_MS,
                now,
            )
            &&& final(leases).binding_map() == match spec_res_opt82_key(res) {
                Some(o) => old(leases).spec_insert_binding(mac, o, now),
                None => old(leases).binding_map(),
            }
        }) && (!spec_request_acks(config@, reservations, msg) ==> *final(leases) == *old(leases))),
        msg@.op == V4Opcode::BootRequest && !(msg@.message_type is None || msg@.message_type
            == Some(V4MessageType::Discover) || msg@.message_type == Some(V4MessageType::Request))
            ==> (r is NoResponse && r->NoResponse_0 == NoResponse::Discarded && *final(leases)
            == *old(leases)),
{
    let message_type = match msg.op {
        V4Opcode::BootRequest => match msg.message_type {
            Some(mt) => mt,
            None => {
                return DhcpV4Response::NoResponse(NoResponse::NoMessageType);
            },
        },
        V4Opcode::BootReply => {
            return DhcpV4Response::NoResponse(NoResponse::Discarded);
        },
        V4Opcode::Unknown(_) => {
            return DhcpV4Response::NoResponse(NoResponse::Discarded);
        },
    };
    match message_type {
        V4MessageType::Discover => handle_discover(config, reservations, msg),
        V4MessageType::Request => handle_request(config, reservations, leases, msg, now),
        _ => DhcpV4Response::NoResponse(NoResponse::Discarded),
    }
}

} // verus!
