//! The DHCPv6 server core: the message model and the Solicit / Request /
//! Renew / Rebind handlers, RFC 8415 style, behind a RelayForw envelope.
//!
//! The worker unwraps the inner message from the relay envelope and hands
//! the handler both; on success it wraps the reply back into a RelayRepl
//! that preserves the relay header and echoes any Interface-ID.

use vstd::prelude::*;
use vstd::string::StringExecFns;

use crate::config::{Config, ConfigV};
use crate::duid::Duid;
use crate::extractors_v6::Option1837Extractor;
use crate::index::{ReservationDb, ReservationKeyV};
use crate::leasedb::LeaseDb;
use crate::mac_extractors::MacExtractor;
use crate::resolve::ReservationMatch;
use crate::strutil::{bytes_clone, string_from_utf8};
use crate::types::{LeaseV6, LeaseV6V, Option1837, Option1837V, Reservation, ReservationV};

verus! {

/// The lease time granted on v6 assignments, in seconds.
pub const VALID_LIFETIME: u32 = 7200;

/// The preferred lifetime: half the valid lifetime.
pub const PREFERRED_LIFETIME: u32 = VALID_LIFETIME / 2;

/// T1, when the client starts renewing: half the preferred lifetime.
pub const RENEWAL_TIME: u32 = PREFERRED_LIFETIME / 2;

/// T2, when the client starts rebinding: four fifths of the preferred
/// lifetime.
pub const REBINDING_TIME: u32 = PREFERRED_LIFETIME * 4 / 5;

/// The v6 lease validity in milliseconds.
pub const VALID_LIFETIME_MS: u64 = 7_200_000;

/// The status code of a StatusCode option that reports no binding.
pub const STATUS_NO_BINDING: u16 = 3;

/// A DHCPv6 message type.
#[derive(Clone, Copy, Debug, PartialEq, Eq)]
pub enum V6MsgType {
    Solicit,
    Advertise,
    Request,
    Confirm,
    Renew,
    Rebind,
    Reply,
    Release,
    Decline,
    Reconfigure,
    InformationRequest,
    RelayForw,
    RelayRepl,
    Unknown(u8),
}

impl V6MsgType {
    /// The name recorded in events.
    pub open spec fn str_spec(self) -> Seq<char> {
        match self {
            V6MsgType::Solicit => "Solicit"@,
            V6MsgType::Advertise => "Advertise"@,
            V6MsgType::Request => "Request"@,
            V6MsgType::Confirm => "Confirm"@,
            V6MsgType::Renew => "Renew"@,
            V6MsgType::Rebind => "Rebind"@,
            V6MsgType::Reply => "Reply"@,
            V6MsgType::Release => "Release"@,
            V6MsgType::Decline => "Decline"@,
            V6MsgType::Reconfigure => "Reconfigure"@,
            V6MsgType::InformationRequest => "InformationRequest"@,
            V6MsgType::RelayForw => "RelayForw"@,
            V6MsgType::RelayRepl => "RelayRepl"@,
            V6MsgType::Unknown(_) => "Unknown"@,
        }
    }

    /// The name recorded in events.
    pub fn as_str(&self) -> (r: &'static str)
        ensures
            r@ == self.str_spec(),
    {
        match self {
            V6MsgType::Solicit => "Solicit",
            V6MsgType::Advertise => "Advertise",
            V6MsgType::Request => "Request",
            V6MsgType::Confirm => "Confirm",
            V6MsgType::Renew => "Renew",
            V6MsgType::Rebind => "Rebind",
            V6MsgType::Reply => "Reply",
            V6MsgType::Release => "Release",
            V6MsgType::Decline => "Decline",
            V6MsgType::Reconfigure => "Reconfigure",
            V6MsgType::InformationRequest => "InformationRequest",
            V6MsgType::RelayForw => "RelayForw",
            V6MsgType::RelayRepl => "RelayRepl",
            V6MsgType::Unknown(_) => "Unknown",
        }
    }
}

/// A StatusCode option: a numeric code and a human-readable message.
#[derive(Debug)]
pub struct V6StatusCode {
    pub code: u16,
    pub message: String,
}

/// The abstract value of a [`V6StatusCode`].
pub struct V6StatusCodeV {
    pub code: u16,
    pub message: Seq<char>,
}

impl View for V6StatusCode {
    type V = V6StatusCodeV;

    open spec fn view(&self) -> V6StatusCodeV {
        V6StatusCodeV { code: self.code, message: self.message@ }
    }
}

/// The view of an optional status code.
pub open spec fn opt_status_view(o: Option<V6StatusCode>) -> Option<V6StatusCodeV> {
    match o {
        Some(s) => Some(s@),
        None => None,
    }
}

/// One address inside an IA_NA option.
#[derive(Clone, Copy, Debug, PartialEq, Eq)]
pub struct IaAddress {
    pub addr: u128,
    pub preferred: u32,
    pub valid: u32,
}

/// An IA_NA option: the client-chosen IAID, timers, addresses, and an
/// optional per-IA status code.
#[derive(Debug)]
pub struct IaNa {
    pub id: u32,
    pub t1: u32,
    pub t2: u32,
    pub addrs: Vec<IaAddress>,
    pub status: Option<V6StatusCode>,
}

/// The abstract value of an [`IaNa`].
pub struct IaNaV {
    pub id: u32,
    pub t1: u32,
    pub t2: u32,
    pub addrs: Seq<IaAddress>,
    pub status: Option<V6StatusCodeV>,
}

impl View for IaNa {
    type V = IaNaV;

    open spec fn view(&self) -> IaNaV {
        IaNaV {
            id: self.id,
            t1: self.t1,
            t2: self.t2,
            addrs: self.addrs@,
            status: opt_status_view(self.status),
        }
    }
}

/// One prefix inside an IA_PD option.
#[derive(Clone, Copy, Debug, PartialEq, Eq)]
pub struct IaPrefix {
    pub prefix: u128,
    pub prefix_len: u8,
    pub preferred: u32,
    pub valid: u32,
}

/// An IA_PD option: the client-chosen IAID, timers, prefixes, and an
/// optional per-IA status code.
#[derive(Debug)]
pub struct IaPd {
    pub id: u32,
    pub t1: u32,
    pub t2: u32,
    pub prefixes: Vec<IaPrefix>,
    pub status: Option<V6StatusCode>,
}

/// The abstract value of an [`IaPd`].
pub struct IaPdV {
    pub id: u32,
    pub t1: u32,
    pub t2: u32,
    pub prefixes: Seq<IaPrefix>,
    pub status: Option<V6StatusCodeV>,
}

impl View for IaPd {
    type V = IaPdV;

    open spec fn view(&self) -> IaPdV {
        IaPdV {
            id: self.id,
            t1: self.t1,
            t2: self.t2,
            prefixes: self.prefixes@,
            status: opt_status_view(self.status),
        }
    }
}

/// A DHCPv6 message, reduced to the options this server reads and writes.
#[derive(Debug)]
pub struct V6Message {
    pub msg_type: V6MsgType,
    pub xid: u32,
    pub client_id: Option<Duid>,
    pub server_id: Option<Duid>,
    pub rapid_commit: bool,
    pub preference: Option<u8>,
    pub status: Option<V6StatusCode>,
    pub ia_nas: Vec<IaNa>,
    pub ia_pds: Vec<IaPd>,
}

/// The abstract value of a [`V6Message`].
pub struct V6MessageV {
    pub msg_type: V6MsgType,
    pub xid: u32,
    pub client_id: Option<Seq<u8>>,
    pub server_id: Option<Seq<u8>>,
    pub rapid_commit: bool,
    pub preference: Option<u8>,
    pub status: Option<V6StatusCodeV>,
    pub ia_nas: Seq<IaNaV>,
    pub ia_pds: Seq<IaPdV>,
}

impl View for V6Message {
    type V = V6MessageV;

    open spec fn view(&self) -> V6MessageV {
        V6MessageV {
            msg_type: self.msg_type,
            xid: self.xid,
            client_id: crate::types::opt_duid_view(self.client_id),
            server_id: crate::types::opt_duid_view(self.server_id),
            rapid_commit: self.rapid_commit,
            preference: self.preference,
            status: opt_status_view(self.status),
            ia_nas: Seq::new(self.ia_nas@.len(), |i: int| self.ia_nas@[i]@),
            ia_pds: Seq::new(self.ia_pds@.len(), |i: int| self.ia_pds@[i]@),
        }
    }
}

/// The relay Remote-ID option (Option 37).
#[derive(Debug)]
pub struct RemoteIdOption {
    pub enterprise_number: u32,
    pub id: Vec<u8>,
}

/// The relay Client Link-Layer Address option (RFC 6939).
#[derive(Debug)]
pub struct ClientLinkLayerOption {
    pub address_type: u16,
    pub address: Vec<u8>,
}

/// The RelayForw envelope as the handler sees it: the relay header and the
/// relay options this server reads.
#[derive(Debug)]
pub struct V6RelayInfo {
    pub hop_count: u8,
    pub link_addr: u128,
    pub peer_addr: u128,
    pub interface_id: Option<Vec<u8>>,
    pub remote_id: Option<RemoteIdOption>,
    pub client_ll: Option<ClientLinkLayerOption>,
}

/// The abstract value of a [`RemoteIdOption`].
pub struct RemoteIdOptionV {
    pub enterprise_number: u32,
    pub id: Seq<u8>,
}

/// The abstract value of a [`ClientLinkLayerOption`].
pub struct ClientLinkLayerOptionV {
    pub address_type: u16,
    pub address: Seq<u8>,
}

/// The abstract value of a [`V6RelayInfo`].
pub struct V6RelayInfoV {
    pub hop_count: u8,
    pub link_addr: u128,
    pub peer_addr: u128,
    pub interface_id: Option<Seq<u8>>,
    pub remote_id: Option<RemoteIdOptionV>,
    pub client_ll: Option<ClientLinkLayerOptionV>,
}

impl View for V6RelayInfo {
    type V = V6RelayInfoV;

    open spec fn view(&self) -> V6RelayInfoV {
        V6RelayInfoV {
            hop_count: self.hop_count,
            link_addr: self.link_addr,
            peer_addr: self.peer_addr,
            interface_id: match self.interface_id {
                Some(ref b) => Some(b@),
                None => None,
            },
            remote_id: match self.remote_id {
                Some(ref r) => Some(
                    RemoteIdOptionV { enterprise_number: r.enterprise_number, id: r.id@ },
                ),
                None => None,
            },
            client_ll: match self.client_ll {
                Some(ref c) => Some(
                    ClientLinkLayerOptionV { address_type: c.address_type, address: c.address@ },
                ),
                None => None,
            },
        }
    }
}

/// The reply envelope the worker sends back: a RelayRepl that preserves the
/// relay header, echoes any Interface-ID, and carries the inner reply.
#[derive(Debug)]
pub struct V6RelayReply {
    pub hop_count: u8,
    pub link_addr: u128,
    pub peer_addr: u128,
    pub interface_id: Option<Vec<u8>>,
    pub message: V6Message,
}

/// Wraps a reply in a RelayRepl envelope: hop count, link address and peer
/// address are preserved, and the Interface-ID is echoed when present.
pub fn wrap_relay_reply(relay_msg: &V6RelayInfo, message: V6Message) -> (r: V6RelayReply)
    ensures
        r.hop_count == relay_msg.hop_count,
        r.link_addr == relay_msg.link_addr,
        r.peer_addr == relay_msg.peer_addr,
        match r.interface_id {
            Some(b) => relay_msg@.interface_id == Some(b@),
            None => relay_msg@.interface_id is None,
        },
        r.message == message,
{
    V6RelayReply {
        hop_count: relay_msg.hop_count,
        link_addr: relay_msg.link_addr,
        peer_addr: relay_msg.peer_addr,
        interface_id: match &relay_msg.interface_id {
            Some(b) => Some(bytes_clone(b)),
            None => None,
        },
        message,
    }
}

/// What the relay options yield as an Option 18/37 lookup value: each
/// subfield decoded from UTF-8, present when either identifier decodes.
pub open spec fn spec_option1837_of(ri: V6RelayInfoV) -> Option<Option1837V> {
    let interface = match ri.interface_id {
        Some(b) => if vstd::utf8::valid_utf8(b) {
            Some(vstd::utf8::decode_utf8(b))
        } else {
            None
        },
        None => None,
    };
    let remote = match ri.remote_id {
        Some(rid) => if vstd::utf8::valid_utf8(rid.id) {
            Some(vstd::utf8::decode_utf8(rid.id))
        } else {
            None
        },
        None => None,
    };
    let enterprise = match ri.remote_id {
        Some(rid) => if vstd::utf8::valid_utf8(rid.id) {
            Some(rid.enterprise_number)
        } else {
            None
        },
        None => None,
    };
    if interface is Some || remote is Some {
        Some(Option1837V { interface: interface, remote: remote, enterprise_number: enterprise })
    } else {
        None
    }
}

/// Builds the Option 18/37 value carried by the relay options, if any.
pub fn option1837_of(relay_msg: &V6RelayInfo) -> (r: Option<Option1837>)
    ensures
        crate::types::opt1837_view(r) == spec_option1837_of(relay_msg@),
{
    let interface: Option<String> = match &relay_msg.interface_id {
        Some(b) => string_from_utf8(bytes_clone(b)),
        None => None,
    };
    let (remote, enterprise): (Option<String>, Option<u32>) = match &relay_msg.remote_id {
        Some(rid) => match string_from_utf8(bytes_clone(&rid.id)) {
            Some(s) => (Some(s), Some(rid.enterprise_number)),
            None => (None, None),
        },
        None => (None, None),
    };
    if interface.is_some() || remote.is_some() {
        Some(Option1837 { interface, remote, enterprise_number: enterprise })
    } else {
        None
    }
}

/// Why the server stayed silent on a DHCPv6 request.
#[derive(Debug, Clone, Copy, PartialEq, Eq)]
pub enum NoResponseReason {
    NoClientId,
    UnexpectedServerId,
    WrongServerId,
    NoServerId,
    NoReservation,
    Discarded,
}

impl NoResponseReason {
    /// The reason name recorded in failure events.
    pub open spec fn str_spec(self) -> Seq<char> {
        match self {
            NoResponseReason::NoClientId => "NoClientId"@,
            NoResponseReason::UnexpectedServerId => "UnexpectedServerId"@,
            NoResponseReason::WrongServerId => "WrongServerId"@,
            NoResponseReason::NoServerId => "NoServerId"@,
            NoResponseReason::NoReservation => "NoReservation"@,
            NoResponseReason::Discarded => "Discarded"@,
        }
    }

    /// The reason name recorded in failure events.
    pub fn as_str(&self) -> (r: &'static str)
        ensures
            r@ == self.str_spec(),
    {
        match self {
            NoResponseReason::NoClientId => "NoClientId",
            NoResponseReason::UnexpectedServerId => "UnexpectedServerId",
            NoResponseReason::WrongServerId => "WrongServerId",
            NoResponseReason::NoServerId => "NoServerId",
            NoResponseReason::NoReservation => "NoReservation",
            NoResponseReason::Discarded => "Discarded",
        }
    }
}

/// A DHCPv6 response message, with the reservation behind it for
/// observability.
pub struct ResponseMessage {
    pub message: V6Message,
    pub reservation: Option<Reservation>,
    pub reservation_match: Option<ReservationMatch>,
}

/// The handler decides: send a message, or stay silent for a reason.
pub enum DhcpV6Response {
    Message(ResponseMessage),
    NoResponse(NoResponseReason),
}

/// The view of the reservation a response carries.
pub open spec fn opt_res_view(o: Option<Reservation>) -> Option<ReservationV> {
    match o {
        Some(res) => Some(res@),
        None => None,
    }
}

/// Finds a reservation for an extracted Option 18/37 value: the first
/// configured extractor whose key is on file wins.
pub open spec fn spec_find_by_relay_1837(
    rm: Map<ReservationKeyV, ReservationV>,
    exs: Seq<Option1837Extractor>,
    o: Option1837V,
) -> Option<(ReservationV, ReservationMatch)>
    decreases exs.len(),
{
    if exs.len() == 0 {
        None
    } else {
        match exs[0].spec_apply(o) {
            Some(k) => if rm.contains_key(ReservationKeyV::Opt1837(k)) {
                Some((rm[ReservationKeyV::Opt1837(k)], ReservationMatch::Option1837(exs[0])))
            } else {
                spec_find_by_relay_1837(rm, exs.drop_first(), o)
            },
            None => spec_find_by_relay_1837(rm, exs.drop_first(), o),
        }
    }
}

/// The view of an optional resolver result.
pub open spec fn opt_found_view(
    o: Option<(Reservation, ReservationMatch)>,
) -> Option<(ReservationV, ReservationMatch)> {
    match o {
        Some((res, m)) => Some((res@, m)),
        None => None,
    }
}

/// Attempts each configured Option 18/37 extractor in order against the
/// relay options, and looks the extracted key up.
pub fn find_reservation_by_relay_info(
    reservations: &ReservationDb,
    extractors: &Vec<Option1837Extractor>,
    relay_msg: &V6RelayInfo,
) -> (r: Option<(Reservation, ReservationMatch)>)
    ensures
        opt_found_view(r) == match spec_option1837_of(relay_msg@) {
            Some(o) => spec_find_by_relay_1837(reservations@, extractors@, o),
            None => None::<(ReservationV, ReservationMatch)>,
        },
{
    let option1837 = match option1837_of(relay_msg) {
        Some(o) => o,
        None => {
            return None;
        },
    };
    let ghost all = extractors@;
    let ghost o = option1837@;
    proof {
        assert(all.skip(0) =~= all);
    }
    for i in 0..extractors.len()
        invariant
            all == extractors@,
            o == option1837@,
            spec_find_by_relay_1837(reservations@, all, o) == spec_find_by_relay_1837(
                reservations@,
                all.skip(i as int),
                o,
            ),
    {
        proof {
            assert(all.skip(i as int)[0] == all[i as int]);
            assert(all.skip(i as int).drop_first() =~= all.skip(i as int + 1));
        }
        if let Some(extracted) = extractors[i].apply(&option1837) {
            if let Some(res) = reservations.by_opt1837(&extracted) {
                return Some((res, ReservationMatch::Option1837(extractors[i])));
            }
        }
    }
    proof {
        assert(all.skip(extractors@.len() as int) =~= Seq::<Option1837Extractor>::empty());
    }
    None
}

/// Walks the configured MAC extraction methods in order: a direct MAC match
/// wins, else the Option 82 value remembered for that MAC is tried.
pub open spec fn spec_find_by_mac_extractors(
    rm: Map<ReservationKeyV, ReservationV>,
    bindings: Map<Seq<u8>, crate::leasedb::Opt82BindingV>,
    exs: Seq<MacExtractor>,
    relay: V6RelayInfoV,
    msg: V6MessageV,
) -> Option<(ReservationV, ReservationMatch)>
    decreases exs.len(),
{
    if exs.len() == 0 {
        None
    } else {
        match exs[0].spec_extract(relay, msg) {
            Some(mac) => if rm.contains_key(ReservationKeyV::Mac(mac)) {
                Some((rm[ReservationKeyV::Mac(mac)], ReservationMatch::MacExtracted(exs[0])))
            } else if bindings.contains_key(mac) && rm.contains_key(
                ReservationKeyV::Opt82(bindings[mac].opt82),
            ) {
                Some(
                    (rm[ReservationKeyV::Opt82(bindings[mac].opt82)],
                    ReservationMatch::Option82LeaseFallback),
                )
            } else {
                spec_find_by_mac_extractors(rm, bindings, exs.drop_first(), relay, msg)
            },
            None => spec_find_by_mac_extractors(rm, bindings, exs.drop_first(), relay, msg),
        }
    }
}

/// The DHCPv6 resolver ladder: the client's DUID first, then the Option
/// 18/37 extractors, then each MAC extraction method with its Option 82
/// lease fallback.
pub open spec fn spec_find_reservation_v6(
    rm: Map<ReservationKeyV, ReservationV>,
    bindings: Map<Seq<u8>, crate::leasedb::Opt82BindingV>,
    opt1837_exs: Seq<Option1837Extractor>,
    mac_exs: Seq<MacExtractor>,
    relay: V6RelayInfoV,
    msg: V6MessageV,
    client_id: Seq<u8>,
) -> Option<(ReservationV, ReservationMatch)> {
    if rm.contains_key(ReservationKeyV::Duid(client_id)) {
        Some((rm[ReservationKeyV::Duid(client_id)], ReservationMatch::Duid))
    } else {
        match spec_option1837_of(relay) {
            Some(o) => match spec_find_by_relay_1837(rm, opt1837_exs, o) {
                Some(found) => Some(found),
                None => spec_find_by_mac_extractors(rm, bindings, mac_exs, relay, msg),
            },
            None => spec_find_by_mac_extractors(rm, bindings, mac_exs, relay, msg),
        }
    }
}

/// Resolves a reservation for a DHCPv6 request, trying the DUID, the
/// Option 18/37 extractors, and the MAC extraction methods in that order.
pub fn find_reservation(
    reservations: &ReservationDb,
    leases: &LeaseDb,
    opt1837_extractors: &Vec<Option1837Extractor>,
    mac_extractors: &Vec<MacExtractor>,
    relay_msg: &V6RelayInfo,
    msg: &V6Message,
    client_id: &Duid,
) -> (r: Option<(Reservation, ReservationMatch)>)
    ensures
        opt_found_view(r) == spec_find_reservation_v6(
            reservations@,
            leases.binding_map(),
            opt1837_extractors@,
            mac_extractors@,
            relay_msg@,
            msg@,
            client_id@,
        ),
{
    if let Some(res) = reservations.by_duid(client_id) {
        return Some((res, ReservationMatch::Duid));
    }
    if let Some(found) = find_reservation_by_relay_info(
        reservations,
        opt1837_extractors,
        relay_msg,
    ) {
        return Some(found);
    }
    let ghost all = mac_extractors@;
    proof {
        assert(all.skip(0) =~= all);
    }
    for i in 0..mac_extractors.len()
        invariant
            all == mac_extractors@,
            spec_find_by_mac_extractors(reservations@, leases.binding_map(), all, relay_msg@, msg@)
                == spec_find_by_mac_extractors(
                reservations@,
                leases.binding_map(),
                all.skip(i as int),
                relay_msg@,
                msg@,
            ),
    {
        proof {
            assert(all.skip(i as int)[0] == all[i as int]);
            assert(all.skip(i as int).drop_first() =~= all.skip(i as int + 1));
        }
        if let Some(mac) = mac_extractors[i].extract(relay_msg, msg) {
            if let Some(res) = reservations.by_mac(mac) {
                return Some((res, ReservationMatch::MacExtracted(mac_extractors[i])));
            }
            if let Some(opt82) = leases.get_opt82_by_mac(&mac) {
                if let Some(res) = reservations.by_opt82(&opt82) {
                    return Some((res, ReservationMatch::Option82LeaseFallback));
                }
            }
        }
    }
    proof {
        assert(all.skip(mac_extractors@.len() as int) =~= Seq::<MacExtractor>::empty());
    }
    None
}

/// The IA_NA a reply carries when a reservation was found: the client's
/// IAID echoed, the configured timers, and the reserved address.
pub open spec fn spec_ia_na_reply(req: IaNaV, res: ReservationV) -> IaNaV {
    IaNaV {
        id: req.id,
        t1: RENEWAL_TIME,
        t2: REBINDING_TIME,
        addrs: seq![
            IaAddress { addr: res.ipv6_na, preferred: PREFERRED_LIFETIME, valid: VALID_LIFETIME },
        ],
        status: None,
    }
}

/// The IA_PD a reply carries when a reservation was found.
pub open spec fn spec_ia_pd_reply(req: IaPdV, res: ReservationV) -> IaPdV {
    IaPdV {
        id: req.id,
        t1: RENEWAL_TIME,
        t2: REBINDING_TIME,
        prefixes: seq![
            IaPrefix {
                prefix: res.ipv6_pd.addr,
                prefix_len: res.ipv6_pd.prefix_len,
                preferred: PREFERRED_LIFETIME,
                valid: VALID_LIFETIME,
            },
        ],
        status: None,
    }
}

/// The StatusCode placed inside an IA when no binding exists.
pub open spec fn spec_no_binding_status() -> V6StatusCodeV {
    V6StatusCodeV { code: STATUS_NO_BINDING, message: "No binding for this IA"@ }
}

/// An IA_NA echoed back with no binding: the client's addresses with
/// zeroed lifetimes, and a NoBinding status inside the IA.
pub open spec fn spec_ia_na_nobinding(ia: IaNaV) -> IaNaV {
    IaNaV {
        id: ia.id,
        t1: ia.t1,
        t2: ia.t2,
        addrs: Seq::new(
            ia.addrs.len(),
            |j: int| IaAddress { addr: ia.addrs[j].addr, preferred: 0, valid: 0 },
        ),
        status: Some(spec_no_binding_status()),
    }
}

/// An IA_PD echoed back with no binding, in the same way.
pub open spec fn spec_ia_pd_nobinding(ia: IaPdV) -> IaPdV {
    IaPdV {
        id: ia.id,
        t1: ia.t1,
        t2: ia.t2,
        prefixes: Seq::new(
            ia.prefixes.len(),
            |j: int|
                IaPrefix {
                    prefix: ia.prefixes[j].prefix,
                    prefix_len: ia.prefixes[j].prefix_len,
                    preferred: 0,
                    valid: 0,
                },
        ),
        status: Some(spec_no_binding_status()),
    }
}

/// The reply sent when a reservation was found: one IA_NA and one IA_PD
/// answering the first of each the client sent, the server and client
/// identifiers, RapidCommit on the expedited path, and Preference 255 on
/// Advertise.
pub open spec fn spec_v6_reply_found(
    cfg: ConfigV,
    msg: V6MessageV,
    res: ReservationV,
    mt: V6MsgType,
    rapid: bool,
) -> V6MessageV {
    V6MessageV {
        msg_type: mt,
        xid: msg.xid,
        client_id: msg.client_id,
        server_id: Some(cfg.v6_server_id),
        rapid_commit: rapid,
        preference: if mt == V6MsgType::Advertise {
            Some(255u8)
        } else {
            None
        },
        status: None,
        ia_nas: if msg.ia_nas.len() > 0 {
            seq![spec_ia_na_reply(msg.ia_nas[0], res)]
        } else {
            Seq::empty()
        },
        ia_pds: if msg.ia_pds.len() > 0 {
            seq![spec_ia_pd_reply(msg.ia_pds[0], res)]
        } else {
            Seq::empty()
        },
    }
}

/// The Reply sent on Renew or Rebind when no reservation matches: every IA
/// the client sent comes back with zeroed lifetimes and a NoBinding status
/// inside the IA, and the message itself carries no StatusCode.
pub open spec fn spec_v6_reply_nobinding(cfg: ConfigV, msg: V6MessageV) -> V6MessageV {
    V6MessageV {
        msg_type: V6MsgType::Reply,
        xid: msg.xid,
        client_id: msg.client_id,
        server_id: Some(cfg.v6_server_id),
        rapid_commit: false,
        preference: None,
        status: None,
        ia_nas: Seq::new(msg.ia_nas.len(), |i: int| spec_ia_na_nobinding(msg.ia_nas[i])),
        ia_pds: Seq::new(msg.ia_pds.len(), |i: int| spec_ia_pd_nobinding(msg.ia_pds[i])),
    }
}

/// The resolver result a handler works from.
pub open spec fn spec_resolved(
    cfg: ConfigV,
    reservations: &ReservationDb,
    leases: LeaseDb,
    msg: &V6Message,
    relay_msg: &V6RelayInfo,
    client_id: Seq<u8>,
) -> Option<(ReservationV, ReservationMatch)> {
    spec_find_reservation_v6(
        reservations@,
        leases.binding_map(),
        cfg.option1837_extractors,
        cfg.mac_extractors,
        relay_msg@,
        msg@,
        client_id,
    )
}

/// The fresh v6 lease recorded for a client.
pub open spec fn spec_new_v6_lease(client_id: Seq<u8>, now: u64) -> LeaseV6V {
    LeaseV6V {
        first_leased: now,
        last_leased: now,
        valid_ms: VALID_LIFETIME_MS,
        duid: client_id,
        mac: None,
    }
}

/// The v6 lease table a Solicit leaves behind: a fresh lease for the
/// resolved reservation when the message is served, else unchanged.
pub open spec fn spec_solicit_leases(
    cfg: ConfigV,
    reservations: &ReservationDb,
    leases_old: LeaseDb,
    msg: &V6Message,
    relay_msg: &V6RelayInfo,
    now: u64,
) -> Map<ReservationV, LeaseV6V> {
    match (msg@.client_id, msg@.server_id) {
        (Some(cid), None) => match spec_resolved(cfg, reservations, leases_old, msg, relay_msg, cid) {
            Some((res, mtch)) => leases_old.v6_map().insert(res, spec_new_v6_lease(cid, now)),
            None => leases_old.v6_map(),
        },
        _ => leases_old.v6_map(),
    }
}

/// The v6 lease table a Request leaves behind.
pub open spec fn spec_request_leases(
    cfg: ConfigV,
    reservations: &ReservationDb,
    leases_old: LeaseDb,
    msg: &V6Message,
    relay_msg: &V6RelayInfo,
    now: u64,
) -> Map<ReservationV, LeaseV6V> {
    match (msg@.client_id, msg@.server_id) {
        (Some(cid), Some(sid)) => if sid == cfg.v6_server_id {
            match spec_resolved(cfg, reservations, leases_old, msg, relay_msg, cid) {
                Some((res, mtch)) => leases_old.v6_map().insert(res, spec_new_v6_lease(cid, now)),
                None => leases_old.v6_map(),
            }
        } else {
            leases_old.v6_map()
        },
        _ => leases_old.v6_map(),
    }
}

/// The v6 lease table any handled message leaves behind, by message type.
pub open spec fn spec_v6_leases(
    cfg: ConfigV,
    reservations: &ReservationDb,
    leases_old: LeaseDb,
    msg: &V6Message,
    relay_msg: &V6RelayInfo,
    now: u64,
) -> Map<ReservationV, LeaseV6V> {
    match msg@.msg_type {
        V6MsgType::Solicit => spec_solicit_leases(cfg, reservations, leases_old, msg, relay_msg, now),
        V6MsgType::Request => spec_request_leases(cfg, reservations, leases_old, msg, relay_msg, now),
        V6MsgType::Renew => spec_renew_rebind_leases(
            cfg,
            reservations,
            leases_old,
            msg,
            relay_msg,
            msg@.server_id == Some(cfg.v6_server_id),
            now,
        ),
        V6MsgType::Rebind => spec_renew_rebind_leases(
            cfg,
            reservations,
            leases_old,
            msg,
            relay_msg,
            true,
            now,
        ),
        _ => leases_old.v6_map(),
    }
}

/// Builds the reservation-found reply.
fn build_reply_found(
    config: &Config,
    msg: &V6Message,
    reservation: &Reservation,
    mt: V6MsgType,
    rapid: bool,
) -> (r: V6Message)
    ensures
        r@ == spec_v6_reply_found(config@, msg@, reservation@, mt, rapid),
{
    let mut ia_nas: Vec<IaNa> = Vec::new();
    if msg.ia_nas.len() > 0 {
        let mut addrs: Vec<IaAddress> = Vec::new();
        addrs.push(
            IaAddress {
                addr: reservation.ipv6_na,
                preferred: PREFERRED_LIFETIME,
                valid: VALID_LIFETIME,
            },
        );
        ia_nas.push(
            IaNa {
                id: msg.ia_nas[0].id,
                t1: RENEWAL_TIME,
                t2: REBINDING_TIME,
                addrs,
                status: None,
            },
        );
    }
    let mut ia_pds: Vec<IaPd> = Vec::new();
    if msg.ia_pds.len() > 0 {
        let mut prefixes: Vec<IaPrefix> = Vec::new();
        prefixes.push(
            IaPrefix {
                prefix: reservation.ipv6_pd.addr,
                prefix_len: reservation.ipv6_pd.prefix_len,
                preferred: PREFERRED_LIFETIME,
                valid: VALID_LIFETIME,
            },
        );
        ia_pds.push(
            IaPd {
                id: msg.ia_pds[0].id,
                t1: RENEWAL_TIME,
                t2: REBINDING_TIME,
                prefixes,
                status: None,
            },
        );
    }
    let r = V6Message {
        msg_type: mt,
        xid: msg.xid,
        client_id: match &msg.client_id {
            Some(d) => Some(d.clone()),
            None => None,
        },
        server_id: Some(config.v6_server_id.clone()),
        rapid_commit: rapid,
        preference: if matches!(mt, V6MsgType::Advertise) {
            Some(255u8)
        } else {
            None
        },
        status: None,
        ia_nas,
        ia_pds,
    };
    proof {
        let spec = spec_v6_reply_found(config@, msg@, reservation@, mt, rapid);
        if msg@.ia_nas.len() > 0 {
            assert(r.ia_nas@[0]@.addrs =~= spec.ia_nas[0].addrs);
            assert(r.ia_nas@[0]@ == spec.ia_nas[0]);
        }
        if msg@.ia_pds.len() > 0 {
            assert(r.ia_pds@[0]@.prefixes =~= spec.ia_pds[0].prefixes);
            assert(r.ia_pds@[0]@ == spec.ia_pds[0]);
        }
        assert(r@.ia_nas =~= spec.ia_nas);
        assert(r@.ia_pds =~= spec.ia_pds);
    }
    r
}

/// Builds the no-binding Reply for Renew and Rebind.
fn build_reply_nobinding(config: &Config, msg: &V6Message) -> (r: V6Message)
    ensures
        r@ == spec_v6_reply_nobinding(config@, msg@),
{
    let mut ia_nas: Vec<IaNa> = Vec::new();
    let n = msg.ia_nas.len();
    for i in 0..n
        invariant
            n == msg.ia_nas@.len(),
            ia_nas@.len() == i,
            forall|k: int| 0 <= k < i ==> (#[trigger] ia_nas@[k])@ == spec_ia_na_nobinding(
                msg@.ia_nas[k],
            ),
    {
        let ia = &msg.ia_nas[i];
        let mut addrs: Vec<IaAddress> = Vec::new();
        let m = ia.addrs.len();
        for j in 0..m
            invariant
                m == ia.addrs@.len(),
                addrs@.len() == j,
                forall|k: int| 0 <= k < j ==> (#[trigger] addrs@[k]) == (IaAddress {
                    addr: ia.addrs@[k].addr,
                    preferred: 0u32,
                    valid: 0u32,
                }),
        {
            addrs.push(IaAddress { addr: ia.addrs[j].addr, preferred: 0, valid: 0 });
        }
        let status = V6StatusCode {
            code: STATUS_NO_BINDING,
            message: String::from_str("No binding for this IA"),
        };
        ia_nas.push(IaNa { id: ia.id, t1: ia.t1, t2: ia.t2, addrs, status: Some(status) });
        proof {
            assert(ia_nas@.last()@.addrs =~= spec_ia_na_nobinding(msg@.ia_nas[i as int]).addrs);
            assert(ia_nas@.last()@ == spec_ia_na_nobinding(msg@.ia_nas[i as int]));
        }
    }
    let mut ia_pds: Vec<IaPd> = Vec::new();
    let np = msg.ia_pds.len();
    for i in 0..np
        invariant
            np == msg.ia_pds@.len(),
            ia_pds@.len() == i,
            forall|k: int| 0 <= k < i ==> (#[trigger] ia_pds@[k])@ == spec_ia_pd_nobinding(
                msg@.ia_pds[k],
            ),
    {
        let ia = &msg.ia_pds[i];
        let mut prefixes: Vec<IaPrefix> = Vec::new();
        let m = ia.prefixes.len();
        for j in 0..m
            invariant
                m == ia.prefixes@.len(),
                prefixes@.len() == j,
                forall|k: int| 0 <= k < j ==> (#[trigger] prefixes@[k]) == (IaPrefix {
                    prefix: ia.prefixes@[k].prefix,
                    prefix_len: ia.prefixes@[k].prefix_len,
                    preferred: 0u32,
                    valid: 0u32,
                }),
        {
            prefixes.push(
                IaPrefix {
                    prefix: ia.prefixes[j].prefix,
                    prefix_len: ia.prefixes[j].prefix_len,
                    preferred: 0,
                    valid: 0,
                },
            );
        }
        let status = V6StatusCode {
            code: STATUS_NO_BINDING,
            message: String::from_str("No binding for this IA"),
        };
        ia_pds.push(IaPd { id: ia.id, t1: ia.t1, t2: ia.t2, prefixes, status: Some(status) });
        proof {
            assert(ia_pds@.last()@.prefixes =~= spec_ia_pd_nobinding(msg@.ia_pds[i as int]).prefixes);
            assert(ia_pds@.last()@ == spec_ia_pd_nobinding(msg@.ia_pds[i as int]));
        }
    }
    let r = V6Message {
        msg_type: V6MsgType::Reply,
        xid: msg.xid,
        client_id: match &msg.client_id {
            Some(d) => Some(d.clone()),
            None => None,
        },
        server_id: Some(config.v6_server_id.clone()),
        rapid_commit: false,
        preference: None,
        status: None,
        ia_nas,
        ia_pds,
    };
    proof {
        let spec = spec_v6_reply_nobinding(config@, msg@);
        assert(r@.ia_nas =~= spec.ia_nas);
        assert(r@.ia_pds =~= spec.ia_pds);
    }
    r
}

/// What Solicit yields: silence without a ClientId, with a ServerId, or
/// without a reservation; else an Advertise — or a Reply when the client
/// asked for rapid commit — carrying the reserved addresses.
pub open spec fn spec_solicit_post(
    cfg: ConfigV,
    reservations: &ReservationDb,
    leases_old: LeaseDb,
    msg: &V6Message,
    relay_msg: &V6RelayInfo,
    r: &DhcpV6Response,
) -> bool {
    match msg@.client_id {
        None => r is NoResponse && r->NoResponse_0 == NoResponseReason::NoClientId,
        Some(cid) => if msg@.server_id is Some {
            r is NoResponse && r->NoResponse_0 == NoResponseReason::UnexpectedServerId
        } else {
            match spec_resolved(cfg, reservations, leases_old, msg, relay_msg, cid) {
                None => r is NoResponse && r->NoResponse_0 == NoResponseReason::NoReservation,
                Some((res, mtch)) => {
                    let mt = if msg@.rapid_commit {
                        V6MsgType::Reply
                    } else {
                        V6MsgType::Advertise
                    };
                    &&& r is Message
                    &&& r->Message_0.message@ == spec_v6_reply_found(
                        cfg,
                        msg@,
                        res,
                        mt,
                        msg@.rapid_commit,
                    )
                    &&& opt_res_view(r->Message_0.reservation) == Some(res)
                    &&& r->Message_0.reservation_match == Some(mtch)
                },
            }
        },
    }
}

/// Handles Solicit: discards without ClientId or with ServerId, resolves a
/// reservation, records a lease, and answers with Advertise or, on rapid
/// commit, Reply.
fn handle_solicit(
    config: &Config,
    reservations: &ReservationDb,
    leases: &mut LeaseDb,
    msg: &V6Message,
    relay_msg: &V6RelayInfo,
    now: u64,
) -> (r: DhcpV6Response)
    requires
        old(leases).wf(),
    ensures
        final(leases).wf(),
        spec_solicit_post(config@, reservations, *old(leases), msg, relay_msg, &r),
        final(leases).v4@ == old(leases).v4@,
        final(leases).mac_to_opt82@ == old(leases).mac_to_opt82@,
        final(leases).v6_map() == spec_solicit_leases(
            config@,
            reservations,
            *old(leases),
            msg,
            relay_msg,
            now,
        ),
{
    let client_id = match &msg.client_id {
        Some(d) => d.clone(),
        None => {
            return DhcpV6Response::NoResponse(NoResponseReason::NoClientId);
        },
    };
    if msg.server_id.is_some() {
        return DhcpV6Response::NoResponse(NoResponseReason::UnexpectedServerId);
    }
    let mt = if msg.rapid_commit {
        V6MsgType::Reply
    } else {
        V6MsgType::Advertise
    };
    match find_reservation(
        reservations,
        leases,
        &config.option1837_extractors,
        &config.mac_extractors,
        relay_msg,
        msg,
        &client_id,
    ) {
        Some((reservation, match_info)) => {
            let lease = LeaseV6 {
                first_leased: now,
                last_leased: now,
                valid_ms: VALID_LIFETIME_MS,
                duid: client_id,
                mac: None,
            };
            leases.leased_new_v6(&reservation, lease);
            let reply = build_reply_found(config, msg, &reservation, mt, msg.rapid_commit);
            DhcpV6Response::Message(
                ResponseMessage {
                    message: reply,
                    reservation: Some(reservation),
                    reservation_match: Some(match_info),
                },
            )
        },
        None => DhcpV6Response::NoResponse(NoResponseReason::NoReservation),
    }
}

/// What Request yields: silence without a ClientId, without a ServerId,
/// with a foreign ServerId, or without a reservation; else a Reply carrying
/// the reserved addresses.
pub open spec fn spec_request_post(
    cfg: ConfigV,
    reservations: &ReservationDb,
    leases_old: LeaseDb,
    msg: &V6Message,
    relay_msg: &V6RelayInfo,
    r: &DhcpV6Response,
) -> bool {
    match msg@.client_id {
        None => r is NoResponse && r->NoResponse_0 == NoResponseReason::NoClientId,
        Some(cid) => match msg@.server_id {
            None => r is NoResponse && r->NoResponse_0 == NoResponseReason::NoServerId,
            Some(sid) => if sid != cfg.v6_server_id {
                r is NoResponse && r->NoResponse_0 == NoResponseReason::WrongServerId
            } else {
                match spec_resolved(cfg, reservations, leases_old, msg, relay_msg, cid) {
                    None => r is NoResponse && r->NoResponse_0 == NoResponseReason::NoReservation,
                    Some((res, mtch)) => {
                        &&& r is Message
                        &&& r->Message_0.message@ == spec_v6_reply_found(
                            cfg,
                            msg@,
                            res,
                            V6MsgType::Reply,
                            false,
                        )
                        &&& opt_res_view(r->Message_0.reservation) == Some(res)
                        &&& r->Message_0.reservation_match == Some(mtch)
                    },
                }
            },
        },
    }
}

/// Handles Request: enforces ClientId and a matching ServerId, resolves a
/// reservation, records a lease, and answers with Reply.
fn handle_request(
    config: &Config,
    reservations: &ReservationDb,
    leases: &mut LeaseDb,
    msg: &V6Message,
    relay_msg: &V6RelayInfo,
    now: u64,
) -> (r: DhcpV6Response)
    requires
        old(leases).wf(),
    ensures
        final(leases).wf(),
        spec_request_post(config@, reservations, *old(leases), msg, relay_msg, &r),
        final(leases).v4@ == old(leases).v4@,
        final(leases).mac_to_opt82@ == old(leases).mac_to_opt82@,
        final(leases).v6_map() == spec_request_leases(
            config@,
            reservations,
            *old(leases),
            msg,
            relay_msg,
            now,
        ),
{
    let client_id = match &msg.client_id {
        Some(d) => d.clone(),
        None => {
            return DhcpV6Response::NoResponse(NoResponseReason::NoClientId);
        },
    };
    match &msg.server_id {
        Some(sid) => {
            if !crate::duid::duid_eq(sid, &config.v6_server_id) {
                return DhcpV6Response::NoResponse(NoResponseReason::WrongServerId);
            }
        },
        None => {
            return DhcpV6Response::NoResponse(NoResponseReason::NoServerId);
        },
    }
    match find_reservation(
        reservations,
        leases,
        &config.option1837_extractors,
        &config.mac_extractors,
        relay_msg,
        msg,
        &client_id,
    ) {
        Some((reservation, match_info)) => {
            let lease = LeaseV6 {
                first_leased: now,
                last_leased: now,
                valid_ms: VALID_LIFETIME_MS,
                duid: client_id,
                mac: None,
            };
            leases.leased_new_v6(&reservation, lease);
            let reply = build_reply_found(config, msg, &reservation, V6MsgType::Reply, false);
            DhcpV6Response::Message(
                ResponseMessage {
                    message: reply,
                    reservation: Some(reservation),
                    reservation_match: Some(match_info),
                },
            )
        },
        None => DhcpV6Response::NoResponse(NoResponseReason::NoReservation),
    }
}

/// What Renew and Rebind yield: silence without a ClientId — and, for
/// Renew only, without or with a foreign ServerId — else always a Reply:
/// the reserved addresses when a reservation matches, the client's IAs
/// with NoBinding inside each IA when none does.
pub open spec fn spec_renew_rebind_post(
    cfg: ConfigV,
    reservations: &ReservationDb,
    leases_old: LeaseDb,
    msg: &V6Message,
    relay_msg: &V6RelayInfo,
    require_server: bool,
    r: &DhcpV6Response,
) -> bool {
    match msg@.client_id {
        None => r is NoResponse && r->NoResponse_0 == NoResponseReason::NoClientId,
        Some(cid) => if require_server && msg@.server_id is None {
            r is NoResponse && r->NoResponse_0 == NoResponseReason::NoServerId
        } else if require_server && msg@.server_id != Some(cfg.v6_server_id) {
            r is NoResponse && r->NoResponse_0 == NoResponseReason::WrongServerId
        } else {
            match spec_resolved(cfg, reservations, leases_old, msg, relay_msg, cid) {
                Some((res, mtch)) => {
                    &&& r is Message
                    &&& r->Message_0.message@ == spec_v6_reply_found(
                        cfg,
                        msg@,
                        res,
                        V6MsgType::Reply,
                        false,
                    )
                    &&& opt_res_view(r->Message_0.reservation) == Some(res)
                    &&& r->Message_0.reservation_match == Some(mtch)
                },
                None => {
                    &&& r is Message
                    &&& r->Message_0.message@ == spec_v6_reply_nobinding(cfg, msg@)
                    &&& r->Message_0.reservation is None
                    &&& r->Message_0.reservation_match is None
                },
            }
        },
    }
}

/// Whether a Renew or Rebind records a fresh lease: only when a
/// reservation matched and the request carried at least one IA.
pub open spec fn spec_renew_rebind_leases(
    cfg: ConfigV,
    reservations: &ReservationDb,
    leases_old: LeaseDb,
    msg: &V6Message,
    relay_msg: &V6RelayInfo,
    gate: bool,
    now: u64,
) -> Map<ReservationV, LeaseV6V> {
    match msg@.client_id {
        Some(cid) => if gate {
            match spec_resolved(cfg, reservations, leases_old, msg, relay_msg, cid) {
                Some((res, mtch)) => if msg@.ia_nas.len() > 0 || msg@.ia_pds.len() > 0 {
                    leases_old.v6_map().insert(res, spec_new_v6_lease(cid, now))
                } else {
                    leases_old.v6_map()
                },
                None => leases_old.v6_map(),
            }
        } else {
            leases_old.v6_map()
        },
        None => leases_old.v6_map(),
    }
}

/// Handles Renew and Rebind, which differ only in the ServerId discipline:
/// Renew requires a matching ServerId, Rebind ignores it.
fn handle_renew_rebind(
    config: &Config,
    reservations: &ReservationDb,
    leases: &mut LeaseDb,
    msg: &V6Message,
    relay_msg: &V6RelayInfo,
    require_server: bool,
    now: u64,
) -> (r: DhcpV6Response)
    requires
        old(leases).wf(),
    ensures
        final(leases).wf(),
        spec_renew_rebind_post(
            config@,
            reservations,
            *old(leases),
            msg,
            relay_msg,
            require_server,
            &r,
        ),
        final(leases).v4@ == old(leases).v4@,
        final(leases).mac_to_opt82@ == old(leases).mac_to_opt82@,
        final(leases).v6_map() == spec_renew_rebind_leases(
            config@,
            reservations,
            *old(leases),
            msg,
            relay_msg,
            !require_server || (msg@.server_id == Some(config@.v6_server_id)),
            now,
        ),
{
    let client_id = match &msg.client_id {
        Some(d) => d.clone(),
        None => {
            return DhcpV6Response::NoResponse(NoResponseReason::NoClientId);
        },
    };
    if require_server {
        match &msg.server_id {
            Some(sid) => {
                if !crate::duid::duid_eq(sid, &config.v6_server_id) {
                    return DhcpV6Response::NoResponse(NoResponseReason::WrongServerId);
                }
            },
            None => {
                return DhcpV6Response::NoResponse(NoResponseReason::NoServerId);
            },
        }
    }
    match find_reservation(
        reservations,
        leases,
        &config.option1837_extractors,
        &config.mac_extractors,
        relay_msg,
        msg,
        &client_id,
    ) {
        Some((reservation, match_info)) => {
            if msg.ia_nas.len() > 0 || msg.ia_pds.len() > 0 {
                let lease = LeaseV6 {
                    first_leased: now,
                    last_leased: now,
                    valid_ms: VALID_LIFETIME_MS,
                    duid: client_id,
                    mac: None,
                };
                leases.leased_new_v6(&reservation, lease);
            }
            let reply = build_reply_found(config, msg, &reservation, V6MsgType::Reply, false);
            DhcpV6Response::Message(
                ResponseMessage {
                    message: reply,
                    reservation: Some(reservation),
                    reservation_match: Some(match_info),
                },
            )
        },
        None => {
            let reply = build_reply_nobinding(config, msg);
            DhcpV6Response::Message(
                ResponseMessage { message: reply, reservation: None, reservation_match: None },
            )
        },
    }
}

/// Dispatches an inner DHCPv6 message: Solicit, Request, Renew and Rebind
/// are handled; everything else is silently discarded.
pub fn handle_message(
    config: &Config,
    reservations: &ReservationDb,
    leases: &mut LeaseDb,
    msg: &V6Message,
    relay_msg: &V6RelayInfo,
    now: u64,
) -> (r: DhcpV6Response)
    requires
        old(leases).wf(),
    ensures
        final(leases).wf(),
        final(leases).v4@ == old(leases).v4@,
        final(leases).mac_to_opt82@ == old(leases).mac_to_opt82@,
        final(leases).v6_map() == spec_v6_leases(
            config@,
            reservations,
            *old(leases),
            msg,
            relay_msg,
            now,
        ),
        msg@.msg_type == V6MsgType::Solicit ==> spec_solicit_post(
            config@,
            reservations,
            *old(leases),
            msg,
            relay_msg,
            &r,
        ),
        msg@.msg_type == V6MsgType::Request ==> spec_request_post(
            config@,
            reservations,
            *old(leases),
            msg,
            relay_msg,
            &r,
        ),
        msg@.msg_type == V6MsgType::Renew ==> spec_renew_rebind_post(
            config@,
            reservations,
            *old(leases),
            msg,
            relay_msg,
            true,
            &r,
        ),
        msg@.msg_type == V6MsgType::Rebind ==> spec_renew_rebind_post(
            config@,
            reservations,
            *old(leases),
            msg,
            relay_msg,
            false,
            &r,
        ),
        !(msg@.msg_type == V6MsgType::Solicit || msg@.msg_type == V6MsgType::Request
            || msg@.msg_type == V6MsgType::Renew || msg@.msg_type == V6MsgType::Rebind) ==> (
        r is NoResponse && r->NoResponse_0 == NoResponseReason::Discarded && *final(leases) == *old(
            leases,
        )),
{
    match msg.msg_type {
        V6MsgType::Solicit => handle_solicit(config, reservations, leases, msg, relay_msg, now),
        V6MsgType::Request => handle_request(config, reservations, leases, msg, relay_msg, now),
        V6MsgType::Renew => handle_renew_rebind(
            config,
            reservations,
            leases,
            msg,
            relay_msg,
            true,
            now,
        ),
        V6MsgType::Rebind => handle_renew_rebind(
            config,
            reservations,
            leases,
            msg,
            relay_msg,
            false,
            now,
        ),
        _ => DhcpV6Response::NoResponse(NoResponseReason::Discarded),
    }
}

} // verus!
