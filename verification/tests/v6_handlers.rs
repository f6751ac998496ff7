//! DHCPv6 handler behavior: Solicit, Request, Renew and Rebind, the IAID
//! echo, the Preference and RapidCommit rules, and the NoBinding
//! placement.

use shadowdhcp::config::Config;
use shadowdhcp::duid::Duid;
use shadowdhcp::extractors_v6::get_all_extractors;
use shadowdhcp::index::ReservationDb;
use shadowdhcp::leasedb::LeaseDb;
use shadowdhcp::mac::Mac;
use shadowdhcp::mac_extractors::MacExtractor;
use shadowdhcp::net::{ipv4, ipv6, V4Subnet};
use shadowdhcp::types::{Option82, Reservation, V6Prefix};
use shadowdhcp::v6::{handle_message, wrap_relay_reply, ClientLinkLayerOption, DhcpV6Response,
    IaAddress, IaNa, IaPd, IaPrefix, NoResponseReason, V6Message, V6MsgType, V6RelayInfo,
    PREFERRED_LIFETIME, REBINDING_TIME, RENEWAL_TIME, STATUS_NO_BINDING, VALID_LIFETIME};

const NOW: u64 = 1_700_000_000_000;

fn reservation_mac() -> Mac {
    Mac::new([0, 1, 2, 3, 4, 5])
}

fn na_addr() -> u128 {
    ipv6(0x2001, 0xdb8, 0, 0, 0, 0, 0, 1)
}

fn pd_prefix() -> V6Prefix {
    V6Prefix { addr: ipv6(0x2001, 0xdb8, 0x100, 0, 0, 0, 0, 0), prefix_len: 56 }
}

fn create_env() -> (Config, ReservationDb, LeaseDb) {
    let config = Config {
        v4_server_id: ipv4(1, 1, 1, 1),
        dns_v4: vec![],
        subnets_v4: vec![V4Subnet {
            net_addr: ipv4(192, 168, 0, 0),
            prefix_len: 24,
            gateway: ipv4(192, 168, 0, 1),
            reply_prefix_len: None,
        }],
        v6_server_id: Duid::from_bytes(vec![0, 1, 2, 3]),
        option82_extractors: vec![],
        option1837_extractors: get_all_extractors(),
        mac_extractors: vec![MacExtractor::ClientLinklayerAddress],
    };

    let reservation = Reservation {
        ipv4: ipv4(192, 168, 0, 10),
        ipv6_na: na_addr(),
        ipv6_pd: pd_prefix(),
        mac: Some(reservation_mac()),
        duid: Some(Duid::from_bytes(vec![0xaa, 0xbb, 0xcc])),
        option82: None,
        option1837: None,
    };

    let mut reservations = ReservationDb::new();
    reservations.insert(reservation);

    (config, reservations, LeaseDb::new())
}

fn base_message(mt: V6MsgType, client_id: Vec<u8>) -> V6Message {
    V6Message {
        msg_type: mt,
        xid: 0x123456,
        client_id: Some(Duid::from_bytes(client_id)),
        server_id: None,
        rapid_commit: false,
        preference: None,
        status: None,
        ia_nas: vec![],
        ia_pds: vec![],
    }
}

fn iana(id: u32, addrs: Vec<IaAddress>) -> IaNa {
    IaNa { id, t1: 0, t2: 0, addrs, status: None }
}

fn iapd(id: u32, prefixes: Vec<IaPrefix>) -> IaPd {
    IaPd { id, t1: 0, t2: 0, prefixes, status: None }
}

fn create_relay_forw() -> V6RelayInfo {
    V6RelayInfo {
        hop_count: 0,
        link_addr: 0,
        peer_addr: 0,
        interface_id: None,
        remote_id: None,
        client_ll: None,
    }
}

fn expect_message(
    config: &Config,
    reservations: &ReservationDb,
    leases: &mut LeaseDb,
    msg: &V6Message,
    relay: &V6RelayInfo,
) -> V6Message {
    match handle_message(config, reservations, leases, msg, relay, NOW) {
        DhcpV6Response::Message(resp) => resp.message,
        DhcpV6Response::NoResponse(reason) => {
            panic!("Expected a reply, got NoResponse({:?})", reason)
        }
    }
}

#[test]
fn request_echoes_iaid() {
    let (config, reservations, mut leases) = create_env();
    let mut msg = base_message(V6MsgType::Request, vec![0xaa, 0xbb, 0xcc]);
    msg.server_id = Some(Duid::from_bytes(vec![0, 1, 2, 3]));
    msg.ia_nas = vec![iana(
        314,
        vec![IaAddress { addr: na_addr(), preferred: 100, valid: 200 }],
    )];
    msg.ia_pds = vec![iapd(
        2718,
        vec![IaPrefix { prefix: pd_prefix().addr, prefix_len: 56, preferred: 100, valid: 200 }],
    )];
    let relay = create_relay_forw();
    let resp = expect_message(&config, &reservations, &mut leases, &msg, &relay);
    assert!(matches!(resp.msg_type, V6MsgType::Reply));
    assert_eq!(resp.ia_nas[0].id, 314, "IA_NA IAID not echoed in Request reply");
    assert_eq!(resp.ia_pds[0].id, 2718, "IA_PD IAID not echoed in Request reply");
}

#[test]
fn solicit_advertise_echoes_iaid() {
    let (config, reservations, mut leases) = create_env();
    let mut msg = base_message(V6MsgType::Solicit, vec![0xaa, 0xbb, 0xcc]);
    msg.ia_nas = vec![iana(123, vec![])];
    msg.ia_pds = vec![iapd(456, vec![])];
    let relay = create_relay_forw();
    let resp = expect_message(&config, &reservations, &mut leases, &msg, &relay);
    assert_eq!(resp.ia_nas[0].id, 123, "IA_NA IAID not echoed");
    assert_eq!(resp.ia_pds[0].id, 456, "IA_PD IAID not echoed");
}

#[test]
fn renew_echoes_iaid() {
    let (config, reservations, mut leases) = create_env();
    let mut msg = base_message(V6MsgType::Renew, vec![0xaa, 0xbb, 0xcc]);
    msg.server_id = Some(Duid::from_bytes(vec![0, 1, 2, 3]));
    msg.ia_nas = vec![iana(
        42,
        vec![IaAddress { addr: na_addr(), preferred: 100, valid: 200 }],
    )];
    msg.ia_pds = vec![iapd(
        1337,
        vec![IaPrefix { prefix: pd_prefix().addr, prefix_len: 56, preferred: 100, valid: 200 }],
    )];
    let relay = create_relay_forw();
    let resp = expect_message(&config, &reservations, &mut leases, &msg, &relay);
    assert_eq!(resp.ia_nas[0].id, 42);
    assert_eq!(resp.ia_pds[0].id, 1337);
}

#[test]
fn renew_with_incorrect_iana_address_returns_reserved_address() {
    let (config, reservations, mut leases) = create_env();
    let incorrect_addr = ipv6(0x2001, 0xdb8, 0, 0, 0, 0, 0, 0xdead);
    assert_ne!(incorrect_addr, na_addr());
    let mut msg = base_message(V6MsgType::Renew, vec![0xaa, 0xbb, 0xcc]);
    msg.server_id = Some(Duid::from_bytes(vec![0, 1, 2, 3]));
    msg.ia_nas = vec![iana(
        777,
        vec![IaAddress { addr: incorrect_addr, preferred: 100, valid: 200 }],
    )];
    let relay = create_relay_forw();
    let resp = expect_message(&config, &reservations, &mut leases, &msg, &relay);
    assert!(matches!(resp.msg_type, V6MsgType::Reply));
    assert_eq!(resp.ia_nas[0].id, 777, "IAID must be echoed even on incorrect address");
    assert_eq!(
        resp.ia_nas[0].addrs[0].addr,
        na_addr(),
        "Server must return reserved IPv6 address, not the incorrect one"
    );
}

#[test]
fn renew_no_reservation_returns_no_binding() {
    let (config, reservations, mut leases) = create_env();
    let mut msg = base_message(V6MsgType::Renew, vec![0xde, 0xad, 0xbe, 0xff]);
    msg.server_id = Some(Duid::from_bytes(vec![0, 1, 2, 3]));
    msg.ia_nas = vec![iana(
        1,
        vec![IaAddress {
            addr: ipv6(0x2001, 0xdb8, 0, 0, 0, 0, 0, 0x1234),
            preferred: 100,
            valid: 200,
        }],
    )];
    let relay = create_relay_forw();
    let resp = expect_message(&config, &reservations, &mut leases, &msg, &relay);
    assert!(
        resp.status.is_none(),
        "StatusCode should NOT be at message level per RFC 8415"
    );
    let returned_iana = &resp.ia_nas[0];
    assert_eq!(returned_iana.addrs[0].preferred, 0);
    assert_eq!(returned_iana.addrs[0].valid, 0);
    let ia_status = returned_iana
        .status
        .as_ref()
        .expect("IA_NA missing StatusCode - should be inside IA per RFC 8415");
    assert_eq!(ia_status.code, STATUS_NO_BINDING);
}

#[test]
fn renew_no_reservation_returns_no_binding_in_iapd() {
    let (config, reservations, mut leases) = create_env();
    let mut msg = base_message(V6MsgType::Renew, vec![0xde, 0xad, 0xbe, 0xff]);
    msg.server_id = Some(Duid::from_bytes(vec![0, 1, 2, 3]));
    msg.ia_pds = vec![iapd(
        1,
        vec![IaPrefix {
            prefix: ipv6(0x2001, 0xdb8, 0xabcd, 0, 0, 0, 0, 0),
            prefix_len: 56,
            preferred: 100,
            valid: 200,
        }],
    )];
    let relay = create_relay_forw();
    let resp = expect_message(&config, &reservations, &mut leases, &msg, &relay);
    assert!(resp.status.is_none(), "StatusCode should NOT be at message level");
    let returned_iapd = &resp.ia_pds[0];
    assert_eq!(returned_iapd.prefixes[0].preferred, 0);
    assert_eq!(returned_iapd.prefixes[0].valid, 0);
    let ia_status = returned_iapd
        .status
        .as_ref()
        .expect("IA_PD missing StatusCode - should be inside IA per RFC 8415");
    assert_eq!(ia_status.code, STATUS_NO_BINDING);
}

#[test]
fn renew_with_incorrect_iana_and_iapd_returns_reserved_values() {
    let (config, reservations, mut leases) = create_env();
    let wrong_na = ipv6(0x2001, 0xdb8, 0, 0, 0, 0, 0, 0xbeef);
    let wrong_pd = ipv6(0x2001, 0xdb8, 0xffff, 0, 0, 0, 0, 0);
    let mut msg = base_message(V6MsgType::Renew, vec![0xaa, 0xbb, 0xcc]);
    msg.server_id = Some(Duid::from_bytes(vec![0, 1, 2, 3]));
    msg.ia_nas = vec![iana(
        10,
        vec![IaAddress { addr: wrong_na, preferred: 100, valid: 200 }],
    )];
    msg.ia_pds = vec![iapd(
        20,
        vec![IaPrefix { prefix: wrong_pd, prefix_len: 56, preferred: 100, valid: 200 }],
    )];
    let relay = create_relay_forw();
    let resp = expect_message(&config, &reservations, &mut leases, &msg, &relay);
    assert!(matches!(resp.msg_type, V6MsgType::Reply));
    assert_eq!(resp.ia_nas[0].addrs[0].addr, na_addr());
    assert_eq!(resp.ia_pds[0].prefixes[0].prefix, pd_prefix().addr);
    assert_eq!(resp.ia_pds[0].prefixes[0].prefix_len, 56);
    assert_eq!(resp.ia_nas[0].id, 10);
    assert_eq!(resp.ia_pds[0].id, 20);
}

#[test]
fn dynamic_opt82_binding() {
    let (config, _, _) = create_env();
    let mut db = ReservationDb::new();
    db.load_reservations(vec![
        Reservation {
            ipv4: ipv4(192, 168, 1, 111),
            ipv6_na: ipv6(0x2001, 0xdb8, 1, 6, 0, 0, 0, 1),
            ipv6_pd: V6Prefix { addr: ipv6(0x2001, 0xdb8, 1, 7, 0, 0, 0, 0), prefix_len: 56 },
            mac: None,
            duid: None,
            option82: Some(Option82 {
                circuit: Some("99-11-22-33-44-55".to_string()),
                remote: Some("eth2:100".to_string()),
                subscriber: None,
            }),
            option1837: None,
        },
        Reservation {
            ipv4: ipv4(192, 168, 1, 112),
            ipv6_na: ipv6(0x2001, 0xdb8, 1, 8, 0, 0, 0, 1),
            ipv6_pd: V6Prefix { addr: ipv6(0x2001, 0xdb8, 1, 9, 0, 0, 0, 0), prefix_len: 56 },
            mac: None,
            duid: Some(Duid::try_from_str("00:11:22:33:44:55:66").unwrap()),
            option82: Some(Option82 {
                circuit: None,
                remote: None,
                subscriber: Some("subscriber:1020".to_string()),
            }),
            option1837: None,
        },
    ]);
    let mut leases = LeaseDb::new();
    let opt82 = Option82 {
        circuit: Some("99-11-22-33-44-55".to_string()),
        remote: Some("eth2:100".to_string()),
        subscriber: None,
    };
    let mac = Mac::new([0x00, 0x11, 0x22, 0x33, 0x44, 0x55]);
    leases.insert_mac_option82_binding(&mac, &opt82, NOW);

    let mut msg = base_message(V6MsgType::Solicit, vec![0x00, 0x01]);
    msg.ia_nas = vec![IaNa { id: 1, t1: 100, t2: 1000, addrs: vec![], status: None }];
    msg.ia_pds = vec![IaPd { id: 1, t1: 100, t2: 1000, prefixes: vec![], status: None }];

    let relay = V6RelayInfo {
        hop_count: 0,
        link_addr: ipv6(8, 8, 8, 8, 8, 8, 8, 8),
        peer_addr: ipv6(9, 9, 9, 9, 9, 9, 9, 9),
        interface_id: None,
        remote_id: None,
        client_ll: Some(ClientLinkLayerOption { address_type: 1, address: mac.bytes.to_vec() }),
    };

    let resp = expect_message(&config, &db, &mut leases, &msg, &relay);
    assert!(matches!(resp.msg_type, V6MsgType::Advertise));
    assert_eq!(resp.ia_nas[0].addrs[0].addr, ipv6(0x2001, 0xdb8, 1, 6, 0, 0, 0, 1));
    assert_eq!(resp.ia_pds[0].prefixes[0].prefix, ipv6(0x2001, 0xdb8, 1, 7, 0, 0, 0, 0));
    assert_eq!(resp.ia_pds[0].prefixes[0].prefix_len, 56);
}

#[test]
fn advertise_includes_preference_option() {
    let (config, reservations, mut leases) = create_env();
    let mut msg = base_message(V6MsgType::Solicit, vec![0xaa, 0xbb, 0xcc]);
    msg.ia_nas = vec![iana(1, vec![])];
    let relay = create_relay_forw();
    let resp = expect_message(&config, &reservations, &mut leases, &msg, &relay);
    assert!(matches!(resp.msg_type, V6MsgType::Advertise));
    assert_eq!(resp.preference, Some(255), "Preference should be 255 (maximum)");
}

#[test]
fn rapid_commit_reply_does_not_include_preference() {
    let (config, reservations, mut leases) = create_env();
    let mut msg = base_message(V6MsgType::Solicit, vec![0xaa, 0xbb, 0xcc]);
    msg.rapid_commit = true;
    msg.ia_nas = vec![iana(1, vec![])];
    let relay = create_relay_forw();
    let resp = expect_message(&config, &reservations, &mut leases, &msg, &relay);
    assert!(matches!(resp.msg_type, V6MsgType::Reply));
    assert!(resp.preference.is_none(), "Reply should NOT include Preference option");
    assert!(resp.rapid_commit, "Reply should include RapidCommit option");
}

#[test]
fn t1_t2_constants_are_rfc_compliant() {
    assert_eq!(RENEWAL_TIME, PREFERRED_LIFETIME / 2);
    assert_eq!(RENEWAL_TIME, 1800);
    assert_eq!(REBINDING_TIME, PREFERRED_LIFETIME * 4 / 5);
    assert_eq!(REBINDING_TIME, 2880);
    assert!(RENEWAL_TIME < REBINDING_TIME);
    assert!(REBINDING_TIME < PREFERRED_LIFETIME);
    assert!(PREFERRED_LIFETIME < VALID_LIFETIME);
}

#[test]
fn solicit_response_has_correct_t1_t2() {
    let (config, reservations, mut leases) = create_env();
    let mut msg = base_message(V6MsgType::Solicit, vec![0xaa, 0xbb, 0xcc]);
    msg.ia_nas = vec![iana(1, vec![])];
    msg.ia_pds = vec![iapd(2, vec![])];
    let relay = create_relay_forw();
    let resp = expect_message(&config, &reservations, &mut leases, &msg, &relay);
    assert_eq!(resp.ia_nas[0].t1, RENEWAL_TIME, "IA_NA T1 should be RENEWAL_TIME");
    assert_eq!(resp.ia_nas[0].t2, REBINDING_TIME, "IA_NA T2 should be REBINDING_TIME");
    assert_eq!(resp.ia_pds[0].t1, RENEWAL_TIME, "IA_PD T1 should be RENEWAL_TIME");
    assert_eq!(resp.ia_pds[0].t2, REBINDING_TIME, "IA_PD T2 should be REBINDING_TIME");
    assert_eq!(resp.ia_nas[0].addrs[0].preferred, PREFERRED_LIFETIME);
    assert_eq!(resp.ia_nas[0].addrs[0].valid, VALID_LIFETIME);
    assert_eq!(resp.ia_pds[0].prefixes[0].preferred, PREFERRED_LIFETIME);
    assert_eq!(resp.ia_pds[0].prefixes[0].valid, VALID_LIFETIME);
}

#[test]
fn request_response_has_correct_t1_t2() {
    let (config, reservations, mut leases) = create_env();
    let mut msg = base_message(V6MsgType::Request, vec![0xaa, 0xbb, 0xcc]);
    msg.server_id = Some(Duid::from_bytes(vec![0, 1, 2, 3]));
    msg.ia_nas = vec![iana(1, vec![])];
    msg.ia_pds = vec![iapd(2, vec![])];
    let relay = create_relay_forw();
    let resp = expect_message(&config, &reservations, &mut leases, &msg, &relay);
    assert_eq!(resp.ia_nas[0].t1, RENEWAL_TIME);
    assert_eq!(resp.ia_nas[0].t2, REBINDING_TIME);
    assert_eq!(resp.ia_pds[0].t1, RENEWAL_TIME);
    assert_eq!(resp.ia_pds[0].t2, REBINDING_TIME);
}

#[test]
fn rebind_works_without_server_id() {
    let (config, reservations, mut leases) = create_env();
    let mut msg = base_message(V6MsgType::Rebind, vec![0xaa, 0xbb, 0xcc]);
    msg.ia_nas = vec![iana(
        1,
        vec![IaAddress { addr: na_addr(), preferred: 100, valid: 200 }],
    )];
    msg.ia_pds = vec![iapd(
        2,
        vec![IaPrefix { prefix: pd_prefix().addr, prefix_len: 56, preferred: 100, valid: 200 }],
    )];
    let relay = create_relay_forw();
    let resp = expect_message(&config, &reservations, &mut leases, &msg, &relay);
    assert!(matches!(resp.msg_type, V6MsgType::Reply));
    assert_eq!(resp.ia_nas[0].t1, RENEWAL_TIME);
    assert_eq!(resp.ia_nas[0].t2, REBINDING_TIME);
    assert_eq!(resp.ia_pds[0].t1, RENEWAL_TIME);
    assert_eq!(resp.ia_pds[0].t2, REBINDING_TIME);
    assert_eq!(resp.ia_nas[0].addrs[0].addr, na_addr());
    assert_eq!(resp.ia_pds[0].prefixes[0].prefix, pd_prefix().addr);
    assert_eq!(resp.ia_pds[0].prefixes[0].prefix_len, 56);
}

#[test]
fn rebind_no_reservation_returns_no_binding() {
    let (config, reservations, mut leases) = create_env();
    let mut msg = base_message(V6MsgType::Rebind, vec![0xde, 0xad, 0xbe, 0xef]);
    msg.ia_nas = vec![iana(
        1,
        vec![IaAddress {
            addr: ipv6(0x2001, 0xdb8, 0, 0, 0, 0, 0, 0x1234),
            preferred: 100,
            valid: 200,
        }],
    )];
    let relay = create_relay_forw();
    let resp = expect_message(&config, &reservations, &mut leases, &msg, &relay);
    let returned_iana = &resp.ia_nas[0];
    let ia_status = returned_iana.status.as_ref().expect("IA_NA missing StatusCode");
    assert_eq!(ia_status.code, STATUS_NO_BINDING);
    assert_eq!(returned_iana.addrs[0].preferred, 0);
    assert_eq!(returned_iana.addrs[0].valid, 0);
}

#[test]
fn renew_response_has_correct_t1_t2() {
    let (config, reservations, mut leases) = create_env();
    let mut msg = base_message(V6MsgType::Renew, vec![0xaa, 0xbb, 0xcc]);
    msg.server_id = Some(Duid::from_bytes(vec![0, 1, 2, 3]));
    msg.ia_nas = vec![iana(
        1,
        vec![IaAddress { addr: na_addr(), preferred: 100, valid: 200 }],
    )];
    msg.ia_pds = vec![iapd(
        2,
        vec![IaPrefix { prefix: pd_prefix().addr, prefix_len: 56, preferred: 100, valid: 200 }],
    )];
    let relay = create_relay_forw();
    let resp = expect_message(&config, &reservations, &mut leases, &msg, &relay);
    assert_eq!(resp.ia_nas[0].t1, RENEWAL_TIME);
    assert_eq!(resp.ia_nas[0].t2, REBINDING_TIME);
    assert_eq!(resp.ia_pds[0].t1, RENEWAL_TIME);
    assert_eq!(resp.ia_pds[0].t2, REBINDING_TIME);
}

#[test]
fn solicit_with_server_id_is_discarded() {
    let (config, reservations, mut leases) = create_env();
    let mut msg = base_message(V6MsgType::Solicit, vec![0xaa, 0xbb, 0xcc]);
    msg.server_id = Some(Duid::from_bytes(vec![0, 1, 2, 3]));
    let relay = create_relay_forw();
    match handle_message(&config, &reservations, &mut leases, &msg, &relay, NOW) {
        DhcpV6Response::NoResponse(reason) => {
            assert_eq!(reason, NoResponseReason::UnexpectedServerId);
            assert_eq!(reason.as_str(), "UnexpectedServerId");
        }
        _ => panic!("expected silence"),
    }
}

#[test]
fn renew_and_rebind_without_client_id_are_discarded() {
    let (config, reservations, mut leases) = create_env();
    let relay = create_relay_forw();
    for mt in [V6MsgType::Renew, V6MsgType::Rebind] {
        let mut msg = base_message(mt, vec![]);
        msg.client_id = None;
        match handle_message(&config, &reservations, &mut leases, &msg, &relay, NOW) {
            DhcpV6Response::NoResponse(reason) => {
                assert_eq!(reason, NoResponseReason::NoClientId);
                assert_eq!(reason.as_str(), "NoClientId");
            }
            _ => panic!("expected silence"),
        }
    }
}

#[test]
fn renew_with_wrong_or_missing_server_id() {
    let (config, reservations, mut leases) = create_env();
    let relay = create_relay_forw();
    let mut msg = base_message(V6MsgType::Renew, vec![0xaa, 0xbb, 0xcc]);
    msg.server_id = Some(Duid::from_bytes(vec![9, 9, 9]));
    match handle_message(&config, &reservations, &mut leases, &msg, &relay, NOW) {
        DhcpV6Response::NoResponse(reason) => assert_eq!(reason, NoResponseReason::WrongServerId),
        _ => panic!("expected silence"),
    }
    msg.server_id = None;
    match handle_message(&config, &reservations, &mut leases, &msg, &relay, NOW) {
        DhcpV6Response::NoResponse(reason) => assert_eq!(reason, NoResponseReason::NoServerId),
        _ => panic!("expected silence"),
    }
}

#[test]
fn solicit_with_iaid_echo_behind_relay() {
    // A Solicit carried in a RelayForw, identified by the RFC 6939 client
    // link-layer address, answered through the reservation's MAC.
    let (config, reservations, mut leases) = create_env();
    let mut msg = base_message(V6MsgType::Solicit, vec![0xaa, 0xbb, 0xcd]);
    msg.ia_nas = vec![iana(123, vec![])];
    msg.ia_pds = vec![iapd(456, vec![])];
    let relay = V6RelayInfo {
        hop_count: 2,
        link_addr: ipv6(0xfe80, 0, 0, 0, 0, 0, 0, 1),
        peer_addr: ipv6(0xfe80, 0, 0, 0, 0, 0, 0, 2),
        interface_id: Some(b"eth0".to_vec()),
        remote_id: None,
        client_ll: Some(ClientLinkLayerOption {
            address_type: 1,
            address: vec![0, 1, 2, 3, 4, 5],
        }),
    };
    let resp = expect_message(&config, &reservations, &mut leases, &msg, &relay);
    assert!(matches!(resp.msg_type, V6MsgType::Advertise));
    assert_eq!(resp.ia_nas[0].id, 123);
    assert_eq!(resp.ia_nas[0].addrs[0].addr, na_addr());
    assert_eq!(resp.ia_nas[0].addrs[0].preferred, 3600);
    assert_eq!(resp.ia_nas[0].addrs[0].valid, 7200);
    assert_eq!(resp.ia_pds[0].id, 456);
    assert_eq!(resp.ia_pds[0].prefixes[0].prefix, pd_prefix().addr);
    assert_eq!(resp.ia_pds[0].prefixes[0].prefix_len, 56);
    assert_eq!(resp.preference, Some(255));
    assert_eq!(resp.server_id.as_ref().unwrap().bytes, vec![0, 1, 2, 3]);

    let wrapped = wrap_relay_reply(&relay, resp);
    assert_eq!(wrapped.hop_count, 2);
    assert_eq!(wrapped.link_addr, relay.link_addr);
    assert_eq!(wrapped.peer_addr, relay.peer_addr);
    assert_eq!(wrapped.interface_id.as_deref(), Some(&b"eth0"[..]));
}

#[test]
fn renew_no_binding_for_unknown_client() {
    let (config, reservations, mut leases) = create_env();
    let mut msg = base_message(V6MsgType::Renew, vec![0xde, 0xad, 0xbe, 0xef]);
    msg.server_id = Some(Duid::from_bytes(vec![0, 1, 2, 3]));
    msg.ia_nas = vec![iana(
        1,
        vec![IaAddress {
            addr: ipv6(0x2001, 0xdb8, 0, 0, 0, 0, 0, 0x1234),
            preferred: 100,
            valid: 200,
        }],
    )];
    let relay = create_relay_forw();
    let resp = expect_message(&config, &reservations, &mut leases, &msg, &relay);
    assert!(matches!(resp.msg_type, V6MsgType::Reply));
    assert_eq!(resp.ia_nas[0].id, 1);
    assert_eq!(resp.ia_nas[0].addrs[0].preferred, 0);
    assert_eq!(resp.ia_nas[0].addrs[0].valid, 0);
    assert_eq!(resp.ia_nas[0].status.as_ref().unwrap().code, STATUS_NO_BINDING);
    assert!(resp.status.is_none());
}

#[test]
fn rebind_without_server_id_echoes_both_iaids() {
    let (config, reservations, mut leases) = create_env();
    let mut msg = base_message(V6MsgType::Rebind, vec![0xaa, 0xbb, 0xcc]);
    msg.ia_nas = vec![iana(7, vec![])];
    msg.ia_pds = vec![iapd(8, vec![])];
    let relay = create_relay_forw();
    let resp = expect_message(&config, &reservations, &mut leases, &msg, &relay);
    assert!(matches!(resp.msg_type, V6MsgType::Reply));
    assert_eq!(resp.ia_nas[0].id, 7);
    assert_eq!(resp.ia_pds[0].id, 8);
    assert_eq!(resp.ia_nas[0].t1, 1800);
    assert_eq!(resp.ia_nas[0].t2, 2880);
    assert_eq!(resp.ia_nas[0].addrs[0].addr, na_addr());
    assert_eq!(resp.ia_pds[0].prefixes[0].prefix, pd_prefix().addr);
}
