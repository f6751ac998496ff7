//! The laws this server obeys, stated and proved once for all inputs:
//! the RFC response disciplines of both handlers, the DUID round trip,
//! and the idempotence of snapshot loading.

use vstd::prelude::*;

use crate::config::ConfigV;
use crate::duid::{byte_hex_lower, duid_colon_chars, duid_parse_spec, hex_lower_char,
    parse_hex_groups};
use crate::index::{spec_insert_reservation, spec_load, ReservationDb, ReservationKeyV};
use crate::leasedb::LeaseDb;
use crate::mac::{hex_char_val, is_hex_char};
use crate::strutil::{drop_while_back, drop_while_front, trim_spec, ws_pred};
use crate::types::ReservationV;
use crate::net::spec_find_subnet;
use crate::v4::{spec_classify_request, spec_discover_post, spec_find_reservation_v4,
    spec_msg_mac, spec_request_post, spec_v4_nak, DhcpV4Response, NoResponse, V4Message,
    V4MessageType, V4Opcode, V4RequestVariant, FLAG_BROADCAST};
use crate::v6::{spec_no_binding_status, spec_renew_rebind_post, spec_solicit_post,
    spec_v6_reply_found, spec_v6_reply_nobinding, DhcpV6Response, NoResponseReason, V6Message,
    V6MsgType, V6RelayInfo, V6MessageV};

verus! {

/// Every DHCPv4 response is a BootReply that echoes the request's
/// transaction id and hardware address and preserves the relay address.
pub proof fn lemma_v4_response_echoes(
    cfg: ConfigV,
    reservations: ReservationDb,
    msg: V4Message,
    r: DhcpV4Response,
)
    requires
        spec_discover_post(cfg, &reservations, &msg, &r) || spec_request_post(
            cfg,
            &reservations,
            &msg,
            &r,
        ),
        r is Message,
    ensures
        r->Message_0.message@.op == V4Opcode::BootReply,
        r->Message_0.message@.xid == msg@.xid,
        r->Message_0.message@.chaddr == msg@.chaddr,
        r->Message_0.message@.giaddr == msg@.giaddr,
{
}

/// Every DHCPv4 NAK carries a zero `yiaddr`.
pub proof fn lemma_v4_nak_yiaddr_zero(
    cfg: ConfigV,
    reservations: ReservationDb,
    msg: V4Message,
    r: DhcpV4Response,
)
    requires
        spec_discover_post(cfg, &reservations, &msg, &r) || spec_request_post(
            cfg,
            &reservations,
            &msg,
            &r,
        ),
        r is Message,
        r->Message_0.message@.message_type == Some(V4MessageType::Nak),
    ensures
        r->Message_0.message@.yiaddr == 0,
{
}

/// Every DHCPv4 OFFER and ACK carries the lease time, the renewal time T1
/// and the rebinding time T2.
pub proof fn lemma_v4_offer_ack_timers(
    cfg: ConfigV,
    reservations: ReservationDb,
    msg: V4Message,
    r: DhcpV4Response,
)
    requires
        spec_discover_post(cfg, &reservations, &msg, &r) || spec_request_post(
            cfg,
            &reservations,
            &msg,
            &r,
        ),
        r is Message,
        r->Message_0.message@.message_type == Some(V4MessageType::Offer)
            || r->Message_0.message@.message_type == Some(V4MessageType::Ack),
    ensures
        r->Message_0.message@.lease_time == Some(crate::v4::ADDRESS_LEASE_TIME),
        r->Message_0.message@.renewal == Some(crate::v4::RENEWAL_TIME),
        r->Message_0.message@.rebinding == Some(crate::v4::REBINDING_TIME),
{
}

/// A DISCOVER whose reservation lies outside every configured subnet is
/// not answered.
pub proof fn lemma_discover_outside_subnets(
    cfg: ConfigV,
    reservations: ReservationDb,
    msg: V4Message,
    r: DhcpV4Response,
)
    requires
        spec_discover_post(cfg, &reservations, &msg, &r),
        spec_msg_mac(msg@) is Some,
        spec_find_reservation_v4(
            reservations@,
            cfg.option82_extractors,
            spec_msg_mac(msg@)->Some_0,
            msg@.relay_agent_info,
        ) matches Some(found) && spec_find_subnet(cfg.subnets_v4, found.0.ipv4) is None,
    ensures
        r is NoResponse,
        r->NoResponse_0 == NoResponse::NoServerSubnet,
{
}

/// A REQUEST addressed to another server is never answered; in the
/// SELECTING shape the silence is reported as WrongServerId.
pub proof fn lemma_wrong_server_id_silent(
    cfg: ConfigV,
    reservations: ReservationDb,
    msg: V4Message,
    r: DhcpV4Response,
)
    requires
        spec_request_post(cfg, &reservations, &msg, &r),
        msg@.server_id matches Some(sid) && sid != cfg.v4_server_id,
    ensures
        r is NoResponse,
        msg@.ciaddr == 0 && msg@.requested_ip is Some ==> r->NoResponse_0
            == NoResponse::WrongServerId,
{
}

/// A REQUEST matching none of the four shapes is discarded, whatever its
/// hardware address or reservation state.
pub proof fn lemma_unrecognized_request_discarded(
    cfg: ConfigV,
    reservations: ReservationDb,
    msg: V4Message,
    r: DhcpV4Response,
)
    requires
        spec_request_post(cfg, &reservations, &msg, &r),
        spec_classify_request(cfg, msg@) is Unrecognized,
    ensures
        r is NoResponse,
        r->NoResponse_0 == NoResponse::Discarded,
{
}

/// A REQUEST for an address other than the reserved one draws a NAK whose
/// `yiaddr` is zero, with the broadcast flag set exactly when the request
/// was relayed or the client already asked for broadcast.
pub proof fn lemma_request_mismatch_naks(
    cfg: ConfigV,
    reservations: ReservationDb,
    msg: V4Message,
    r: DhcpV4Response,
)
    requires
        spec_request_post(cfg, &reservations, &msg, &r),
        spec_msg_mac(msg@) is Some,
        spec_find_reservation_v4(
            reservations@,
            cfg.option82_extractors,
            spec_msg_mac(msg@)->Some_0,
            msg@.relay_agent_info,
        ) matches Some(found) && (spec_find_subnet(cfg.subnets_v4, found.0.ipv4) is Some && (
        spec_classify_request(cfg, msg@) matches V4RequestVariant::Requested(req) && req
            != found.0.ipv4)),
    ensures
        r is Message,
        r->Message_0.message@ == spec_v4_nak(cfg, msg@),
        r->Message_0.message@.yiaddr == 0,
        r->Message_0.message@.message_type == Some(V4MessageType::Nak),
        r->Message_0.message@.server_id == Some(cfg.v4_server_id),
        r->Message_0.message@.subnet_mask is None,
        r->Message_0.message@.routers is None,
        r->Message_0.message@.dns_servers is None,
        r->Message_0.message@.lease_time is None,
        r->Message_0.message@.renewal is None,
        r->Message_0.message@.rebinding is None,
        (r->Message_0.message@.flags & FLAG_BROADCAST != 0) <==> (msg@.giaddr != 0 || msg@.flags
            & FLAG_BROADCAST != 0),
        !crate::v4::spec_request_acks(cfg, &reservations, &msg),
{
    let f = msg@.flags;
    assert(f | FLAG_BROADCAST != 0 && ((f | FLAG_BROADCAST) & FLAG_BROADCAST != 0))
        by (bit_vector);
    assert((f & FLAG_BROADCAST != 0) ==> (f | FLAG_BROADCAST == f)) by (bit_vector);
}

/// Every IA in a DHCPv6 reply echoes an IAID the client sent.
pub proof fn lemma_v6_iaid_echo(
    cfg: ConfigV,
    msg: V6MessageV,
    res: ReservationV,
    mt: V6MsgType,
    rapid: bool,
)
    ensures
        forall|i: int|
            0 <= i < spec_v6_reply_found(cfg, msg, res, mt, rapid).ia_nas.len() ==> exists|j: int|
                0 <= j < msg.ia_nas.len() && (#[trigger] spec_v6_reply_found(
                    cfg,
                    msg,
                    res,
                    mt,
                    rapid,
                ).ia_nas[i]).id == msg.ia_nas[j].id,
        forall|i: int|
            0 <= i < spec_v6_reply_found(cfg, msg, res, mt, rapid).ia_pds.len() ==> exists|j: int|
                0 <= j < msg.ia_pds.len() && (#[trigger] spec_v6_reply_found(
                    cfg,
                    msg,
                    res,
                    mt,
                    rapid,
                ).ia_pds[i]).id == msg.ia_pds[j].id,
        forall|i: int|
            0 <= i < spec_v6_reply_nobinding(cfg, msg).ia_nas.len() ==> (
            #[trigger] spec_v6_reply_nobinding(cfg, msg).ia_nas[i]).id == msg.ia_nas[i].id,
        forall|i: int|
            0 <= i < spec_v6_reply_nobinding(cfg, msg).ia_pds.len() ==> (
            #[trigger] spec_v6_reply_nobinding(cfg, msg).ia_pds[i]).id == msg.ia_pds[i].id,
        msg.ia_nas.len() > 0 ==> spec_v6_reply_found(cfg, msg, res, mt, rapid).ia_nas.len() == 1
            && spec_v6_reply_found(cfg, msg, res, mt, rapid).ia_nas[0].id == msg.ia_nas[0].id,
        msg.ia_pds.len() > 0 ==> spec_v6_reply_found(cfg, msg, res, mt, rapid).ia_pds.len() == 1
            && spec_v6_reply_found(cfg, msg, res, mt, rapid).ia_pds[0].id == msg.ia_pds[0].id,
        msg.ia_nas.len() == 0 ==> spec_v6_reply_found(cfg, msg, res, mt, rapid).ia_nas.len() == 0,
        msg.ia_pds.len() == 0 ==> spec_v6_reply_found(cfg, msg, res, mt, rapid).ia_pds.len() == 0,
{
    let found = spec_v6_reply_found(cfg, msg, res, mt, rapid);
    assert forall|i: int| 0 <= i < found.ia_nas.len() implies exists|j: int|
        0 <= j < msg.ia_nas.len() && (#[trigger] found.ia_nas[i]).id == msg.ia_nas[j].id by {
        assert(found.ia_nas[0].id == msg.ia_nas[0].id);
    }
    assert forall|i: int| 0 <= i < found.ia_pds.len() implies exists|j: int|
        0 <= j < msg.ia_pds.len() && (#[trigger] found.ia_pds[i]).id == msg.ia_pds[j].id by {
        assert(found.ia_pds[0].id == msg.ia_pds[0].id);
    }
}

/// A Renew or Rebind with no matching reservation answers with a Reply in
/// which every IA carries a NoBinding status and zeroed lifetimes, and the
/// message itself carries no status code.
pub proof fn lemma_v6_nobinding_placement(cfg: ConfigV, msg: V6MessageV)
    ensures
        spec_v6_reply_nobinding(cfg, msg).msg_type == V6MsgType::Reply,
        spec_v6_reply_nobinding(cfg, msg).status is None,
        forall|i: int|
            0 <= i < spec_v6_reply_nobinding(cfg, msg).ia_nas.len() ==> (
            #[trigger] spec_v6_reply_nobinding(cfg, msg).ia_nas[i]).status == Some(
                spec_no_binding_status(),
            ),
        forall|i: int, j: int|
            0 <= i < spec_v6_reply_nobinding(cfg, msg).ia_nas.len() && 0 <= j
                < spec_v6_reply_nobinding(cfg, msg).ia_nas[i].addrs.len() ==> {
                &&& (#[trigger] spec_v6_reply_nobinding(cfg, msg).ia_nas[i].addrs[j]).preferred
                    == 0
                &&& spec_v6_reply_nobinding(cfg, msg).ia_nas[i].addrs[j].valid == 0
            },
        forall|i: int|
            0 <= i < spec_v6_reply_nobinding(cfg, msg).ia_pds.len() ==> (
            #[trigger] spec_v6_reply_nobinding(cfg, msg).ia_pds[i]).status == Some(
                spec_no_binding_status(),
            ),
        forall|i: int, j: int|
            0 <= i < spec_v6_reply_nobinding(cfg, msg).ia_pds.len() && 0 <= j
                < spec_v6_reply_nobinding(cfg, msg).ia_pds[i].prefixes.len() ==> {
                &&& (#[trigger] spec_v6_reply_nobinding(cfg, msg).ia_pds[i].prefixes[j]).preferred
                    == 0
                &&& spec_v6_reply_nobinding(cfg, msg).ia_pds[i].prefixes[j].valid == 0
            },
{
}

/// Every Advertise answering a Solicit carries Preference 255.
pub proof fn lemma_advertise_preference(
    cfg: ConfigV,
    reservations: ReservationDb,
    leases: LeaseDb,
    msg: V6Message,
    relay_msg: V6RelayInfo,
    r: DhcpV6Response,
)
    requires
        spec_solicit_post(cfg, &reservations, leases, &msg, &relay_msg, &r),
        r is Message,
        !msg@.rapid_commit,
    ensures
        r->Message_0.message@.msg_type == V6MsgType::Advertise,
        r->Message_0.message@.preference == Some(255u8),
{
}

/// A Solicit that carries a ServerId is silently discarded.
pub proof fn lemma_solicit_server_id_discarded(
    cfg: ConfigV,
    reservations: ReservationDb,
    leases: LeaseDb,
    msg: V6Message,
    relay_msg: V6RelayInfo,
    r: DhcpV6Response,
)
    requires
        spec_solicit_post(cfg, &reservations, leases, &msg, &relay_msg, &r),
        msg@.client_id is Some,
        msg@.server_id is Some,
    ensures
        r is NoResponse,
        r->NoResponse_0 == NoResponseReason::UnexpectedServerId,
{
}

/// A Renew or Rebind without a ClientId is silently discarded.
pub proof fn lemma_renew_rebind_no_client_id(
    cfg: ConfigV,
    reservations: ReservationDb,
    leases: LeaseDb,
    msg: V6Message,
    relay_msg: V6RelayInfo,
    require_server: bool,
    r: DhcpV6Response,
)
    requires
        spec_renew_rebind_post(cfg, &reservations, leases, &msg, &relay_msg, require_server, &r),
        msg@.client_id is None,
    ensures
        r is NoResponse,
        r->NoResponse_0 == NoResponseReason::NoClientId,
{
}

/// The lowercase hex digits parse back to their values.
proof fn lemma_hex_lower_char_val(v: u8)
    requires
        v < 16,
    ensures
        is_hex_char(hex_lower_char(v)),
        hex_char_val(hex_lower_char(v)) == v,
        hex_lower_char(v) != ':',
{
    if v == 0 {
    } else if v == 1 {
    } else if v == 2 {
    } else if v == 3 {
    } else if v == 4 {
    } else if v == 5 {
    } else if v == 6 {
    } else if v == 7 {
    } else if v == 8 {
    } else if v == 9 {
    } else if v == 10 {
    } else if v == 11 {
    } else if v == 12 {
    } else if v == 13 {
    } else if v == 14 {
    } else {
    }
}

/// Every character of a rendered DUID is a hex digit or a colon.
proof fn lemma_colon_chars_kind(b: Seq<u8>)
    ensures
        forall|i: int|
            0 <= i < duid_colon_chars(b).len() ==> is_hex_char(#[trigger] duid_colon_chars(b)[i])
                || duid_colon_chars(b)[i] == ':',
        b.len() >= 1 ==> duid_colon_chars(b).len() == 3 * b.len() - 1,
        b.len() >= 1 ==> is_hex_char(duid_colon_chars(b)[0]),
    decreases b.len(),
{
    if b.len() == 0 {
    } else if b.len() == 1 {
        lemma_hex_lower_char_val((b[0] / 16) as u8);
        lemma_hex_lower_char_val((b[0] % 16) as u8);
    } else {
        lemma_hex_lower_char_val((b[0] / 16) as u8);
        lemma_hex_lower_char_val((b[0] % 16) as u8);
        lemma_colon_chars_kind(b.drop_first());
        let s = duid_colon_chars(b);
        let head = byte_hex_lower(b[0]);
        let rest = duid_colon_chars(b.drop_first());
        assert forall|i: int| 0 <= i < s.len() implies is_hex_char(#[trigger] s[i]) || s[i]
            == ':' by {
            if i < head.len() {
                assert(s[i] == head[i]);
            } else if i == head.len() {
                assert(s[i] == ':');
            } else {
                assert(s[i] == rest[i - head.len() - 1]);
            }
        }
    }
}

/// A rendered DUID of two or more bytes parses back to its bytes.
proof fn lemma_parse_colon_chars(b: Seq<u8>)
    requires
        b.len() >= 1,
    ensures
        parse_hex_groups(duid_colon_chars(b), ':') == Some(b),
    decreases b.len(),
{
    let s = duid_colon_chars(b);
    let b0 = b[0];
    lemma_hex_lower_char_val((b0 / 16) as u8);
    lemma_hex_lower_char_val((b0 % 16) as u8);
    if b.len() == 1 {
        assert(s =~= seq![hex_lower_char((b0 / 16) as u8), hex_lower_char((b0 % 16) as u8)]);
        assert(s[1] != ':');
        assert(parse_hex_groups(s, ':') == Some(seq![crate::mac::spec_hex_pair(s[0], s[1])]));
        assert(crate::mac::spec_hex_pair(s[0], s[1]) == b0);
        assert(seq![crate::mac::spec_hex_pair(s[0], s[1])] =~= b);
    } else {
        let rest = duid_colon_chars(b.drop_first());
        lemma_parse_colon_chars(b.drop_first());
        lemma_colon_chars_kind(b.drop_first());
        assert(rest.len() >= 1);
        assert(s == byte_hex_lower(b0) + seq![':'] + rest);
        assert(s.len() == 3 + rest.len());
        assert(s[0] == hex_lower_char((b0 / 16) as u8));
        assert(s[1] == hex_lower_char((b0 % 16) as u8));
        assert(s[1] != ':');
        assert(s[2] == ':');
        assert(s.skip(3) =~= rest);
        assert(crate::mac::spec_hex_pair(s[0], s[1]) == b0);
        assert(parse_hex_groups(s, ':') == Some(
            seq![crate::mac::spec_hex_pair(s[0], s[1])] + b.drop_first(),
        ));
        assert(seq![crate::mac::spec_hex_pair(s[0], s[1])] + b.drop_first() =~= b);
    }
}

/// Round trip: rendering any DUID as colon-separated hex pairs and parsing
/// the rendering back yields the same bytes.
pub proof fn lemma_duid_round_trip(b: Seq<u8>)
    requires
        1 <= b.len() <= 130,
    ensures
        duid_parse_spec(duid_colon_chars(b)) == Some(b),
{
    let s = duid_colon_chars(b);
    lemma_colon_chars_kind(b);
    // No character of the rendering is whitespace, so trimming is identity.
    assert(!crate::strutil::is_ws(s[0]));
    assert(is_hex_char(s[s.len() - 1]) || s[s.len() - 1] == ':');
    assert(!crate::strutil::is_ws(s[s.len() - 1]));
    assert(drop_while_front(s, ws_pred()) == s);
    assert(drop_while_back(s, ws_pred()) == s);
    assert(trim_spec(s) == s);
    if b.len() == 1 {
        lemma_hex_lower_char_val((b[0] / 16) as u8);
        lemma_hex_lower_char_val((b[0] % 16) as u8);
        assert(s =~= seq![
            hex_lower_char((b[0] / 16) as u8), hex_lower_char((b[0] % 16) as u8),
        ]);
        assert(crate::mac::spec_hex_pair(s[0], s[1]) == b[0]);
        assert(seq![crate::mac::spec_hex_pair(s[0], s[1])] =~= b);
    } else {
        let rest = duid_colon_chars(b.drop_first());
        lemma_colon_chars_kind(b.drop_first());
        assert(s == byte_hex_lower(b[0]) + seq![':'] + rest);
        assert(s[2] == ':');
        lemma_parse_colon_chars(b);
    }
}

/// Loading a snapshot overlays its own bindings on the previous map.
proof fn lemma_spec_load_union(m: Map<ReservationKeyV, ReservationV>, rs: Seq<ReservationV>)
    ensures
        spec_load(m, rs) == m.union_prefer_right(
            spec_load(Map::<ReservationKeyV, ReservationV>::empty(), rs),
        ),
    decreases rs.len(),
{
    let empty = Map::<ReservationKeyV, ReservationV>::empty();
    if rs.len() == 0 {
        assert(m.union_prefer_right(spec_load(empty, rs)) =~= m);
    } else {
        let r0 = rs.first();
        let tail = rs.drop_first();
        let delta_tail = spec_load(empty, tail);
        lemma_spec_load_union(spec_insert_reservation(m, r0), tail);
        lemma_spec_load_union(spec_insert_reservation(empty, r0), tail);
        assert(spec_insert_reservation(m, r0).union_prefer_right(delta_tail)
            =~= m.union_prefer_right(
            spec_insert_reservation(empty, r0).union_prefer_right(delta_tail),
        ));
    }
}

/// Idempotence: applying the same snapshot twice to the reservation index
/// leaves every lookup unchanged.
pub proof fn lemma_snapshot_idempotent(
    m: Map<ReservationKeyV, ReservationV>,
    rs: Seq<ReservationV>,
)
    ensures
        spec_load(spec_load(m, rs), rs) == spec_load(m, rs),
{
    let empty = Map::<ReservationKeyV, ReservationV>::empty();
    let delta = spec_load(empty, rs);
    lemma_spec_load_union(m, rs);
    lemma_spec_load_union(spec_load(m, rs), rs);
    assert(m.union_prefer_right(delta).union_prefer_right(delta) =~= m.union_prefer_right(delta));
}

} // verus!
