//! DUID parsing and rendering, the reservation index, the lease cache,
//! MAC extraction methods, worker helpers and management responses.

use shadowdhcp::duid::Duid;
use shadowdhcp::index::ReservationDb;
use shadowdhcp::leasedb::LeaseDb;
use shadowdhcp::mac::{mac_canonical_string, mac_parse, Mac};
use shadowdhcp::mac_extractors::MacExtractor;
use shadowdhcp::mgmt::{build_index, failure_response, reload_response, replace_response,
    status_response, u64_dec};
use shadowdhcp::net::{ipv4, ipv6, netmask, V4Subnet};
use shadowdhcp::types::{LeaseV6, Option82, Reservation, V6Prefix};
use shadowdhcp::v6::{ClientLinkLayerOption, IaNa, V6Message, V6MsgType, V6RelayInfo};
use shadowdhcp::worker::{backoff_ms, hex_for_text2pcap, now};

const NOW: u64 = 1_700_000_000_000;

fn pd(addr: u128, len: u8) -> V6Prefix {
    V6Prefix { addr, prefix_len: len }
}

fn test_reservation(id: u8) -> Reservation {
    Reservation {
        ipv4: ipv4(10, 0, 0, id),
        ipv6_na: ipv6(0x2001, 0xdb8, 0, 0, 0, 0, 0, id as u16),
        ipv6_pd: pd(ipv6(0x2001, 0xdb8, 1, 0, 0, 0, 0, 0), 48),
        mac: None,
        duid: None,
        option82: None,
        option1837: None,
    }
}

fn test_option82() -> Option82 {
    Option82 {
        circuit: Some("circuit1".to_string()),
        remote: Some("remote1".to_string()),
        subscriber: None,
    }
}

fn test_mac(last_octet: u8) -> Mac {
    Mac::new([0x00, 0x11, 0x22, 0x33, 0x44, last_octet])
}

fn reservations_with_opt82(opt82: Option82) -> ReservationDb {
    let mut db = ReservationDb::new();
    db.load_reservations(vec![Reservation {
        ipv4: ipv4(10, 0, 0, 1),
        ipv6_na: ipv6(0x2001, 0xdb8, 0, 0, 0, 0, 0, 1),
        ipv6_pd: pd(ipv6(0x2001, 0xdb8, 1, 0, 0, 0, 0, 0), 48),
        mac: None,
        duid: None,
        option82: Some(opt82),
        option1837: None,
    }]);
    db
}

#[test]
fn parse_duid() {
    let duid_str_colon = "29:30:31:32:33:34:35:36:37:38:39:40:41:42:43:44";
    let duid_str_dash = "29-30-31-32-33-34-35-36-37-38-39-40-41-42-43-44";
    let duid = Duid::from_bytes(vec![
        0x29, 0x30, 0x31, 0x32, 0x33, 0x34, 0x35, 0x36, 0x37, 0x38, 0x39, 0x40, 0x41, 0x42, 0x43,
        0x44,
    ]);

    let duid_parsed_colon = Duid::try_from_str(duid_str_colon).unwrap();
    assert_eq!(duid_parsed_colon, duid);
    let duid_parsed_dash = Duid::try_from_str(duid_str_dash).unwrap();
    assert_eq!(duid_parsed_dash, duid);

    let json = r#"{"duid": "29:30:31:32:33:34:35:36:37:38:39:40:41:42:43:44"}"#;
    let parsed: serde_json::Value = serde_json::from_str(json).unwrap();
    let from_json = Duid::try_from_str(parsed["duid"].as_str().unwrap()).unwrap();
    assert_eq!(from_json, duid);
}

#[test]
fn duid_bounds_and_rendering() {
    // A parsed DUID never exceeds 130 bytes.
    let mut long = String::from("aa");
    for _ in 0..130 {
        long.push_str(":aa");
    }
    assert!(Duid::try_from_str(&long).is_err(), "131 bytes must be rejected");
    let mut max = String::from("aa");
    for _ in 0..129 {
        max.push_str(":bb");
    }
    let parsed = Duid::try_from_str(&max).unwrap();
    assert_eq!(parsed.bytes.len(), 130);

    // Rendering is lowercase colon-separated hex, two digits per byte.
    let d = Duid::from_bytes(vec![0x00, 0x1a, 0x2b, 0x03]);
    assert_eq!(d.to_colon_string(), "00:1a:2b:03");
    assert_eq!(Duid::try_from_str(&d.to_colon_string()).unwrap(), d);

    // Round trip, also for a small first byte and for a single byte.
    let d2 = Duid::from_bytes(vec![0xaa, 0x05, 0xff]);
    let rendered = d2.to_colon_string();
    assert_eq!(rendered, "aa:05:ff");
    assert_eq!(Duid::try_from_str(&rendered).unwrap(), d2);
    let one = Duid::from_bytes(vec![0x0a]);
    assert_eq!(one.to_colon_string(), "0a");
    assert_eq!(Duid::try_from_str(&one.to_colon_string()).unwrap(), one);

    // Unpadded groups are still accepted on input.
    assert_eq!(
        Duid::try_from_str("aa:5:ff").unwrap(),
        Duid::from_bytes(vec![0xaa, 0x05, 0xff])
    );

    // Whitespace is trimmed; garbage is rejected.
    assert_eq!(
        Duid::try_from_str("  aa:bb  ").unwrap(),
        Duid::from_bytes(vec![0xaa, 0xbb])
    );
    assert!(Duid::try_from_str("xyz").is_err());
    assert!(Duid::try_from_str("aa;bb").is_err());
}

#[test]
fn test_reservation_lookups() {
    let mut db = ReservationDb::new();
    db.load_reservations(vec![
        Reservation {
            ipv4: ipv4(192, 168, 1, 109),
            ipv6_na: ipv6(0x2001, 0xdb8, 1, 2, 0, 0, 0, 1),
            ipv6_pd: pd(ipv6(0x2001, 0xdb8, 1, 3, 0, 0, 0, 0), 56),
            mac: Some(Mac::new([0x00, 0x11, 0x22, 0x33, 0x44, 0x55])),
            duid: None,
            option82: None,
            option1837: None,
        },
        Reservation {
            ipv4: ipv4(192, 168, 1, 110),
            ipv6_na: ipv6(0x2001, 0xdb8, 1, 4, 0, 0, 0, 1),
            ipv6_pd: pd(ipv6(0x2001, 0xdb8, 1, 5, 0, 0, 0, 0), 56),
            mac: Some(Mac::new([0x00, 0x11, 0x22, 0x33, 0x44, 0x57])),
            duid: None,
            option82: None,
            option1837: None,
        },
        Reservation {
            ipv4: ipv4(192, 168, 1, 111),
            ipv6_na: ipv6(0x2001, 0xdb8, 1, 6, 0, 0, 0, 1),
            ipv6_pd: pd(ipv6(0x2001, 0xdb8, 1, 7, 0, 0, 0, 0), 56),
            mac: None,
            duid: None,
            option82: Some(Option82 {
                circuit: Some("99-11-22-33-44-55".to_string()),
                remote: Some("eth2:100".to_string()),
                subscriber: None,
            }),
            option1837: None,
        },
        Reservation {
            ipv4: ipv4(192, 168, 1, 112),
            ipv6_na: ipv6(0x2001, 0xdb8, 1, 8, 0, 0, 0, 1),
            ipv6_pd: pd(ipv6(0x2001, 0xdb8, 1, 9, 0, 0, 0, 0), 56),
            mac: None,
            duid: Some(Duid::try_from_str("00:11:22:33:44:55:66").unwrap()),
            option82: Some(Option82 {
                circuit: None,
                remote: None,
                subscriber: Some("subscriber:1020".to_string()),
            }),
            option1837: None,
        },
    ]);

    assert_eq!(
        db.by_mac(Mac::new([0x00, 0x11, 0x22, 0x33, 0x44, 0x55])).unwrap().ipv4,
        ipv4(192, 168, 1, 109)
    );
    assert_eq!(
        db.by_duid(&Duid::from_bytes(vec![0x00, 0x11, 0x22, 0x33, 0x44, 0x55, 0x66]))
            .unwrap()
            .ipv4,
        ipv4(192, 168, 1, 112)
    );
    let opt82 = Option82 {
        circuit: None,
        remote: None,
        subscriber: Some("subscriber:1020".to_string()),
    };
    assert_eq!(db.by_opt82(&opt82).unwrap().ipv4, ipv4(192, 168, 1, 112));
}

#[test]
fn loading_a_snapshot_twice_changes_nothing() {
    let snapshot = || {
        vec![
            Reservation {
                ipv4: ipv4(10, 0, 0, 1),
                ipv6_na: ipv6(0x2001, 0xdb8, 0, 0, 0, 0, 0, 1),
                ipv6_pd: pd(ipv6(0x2001, 0xdb8, 1, 0, 0, 0, 0, 0), 56),
                mac: Some(test_mac(1)),
                duid: Some(Duid::from_bytes(vec![1, 2, 3])),
                option82: None,
                option1837: None,
            },
            Reservation {
                ipv4: ipv4(10, 0, 0, 2),
                ipv6_na: ipv6(0x2001, 0xdb8, 0, 0, 0, 0, 0, 2),
                ipv6_pd: pd(ipv6(0x2001, 0xdb8, 2, 0, 0, 0, 0, 0), 56),
                mac: Some(test_mac(1)),
                duid: None,
                option82: Some(test_option82()),
                option1837: None,
            },
        ]
    };
    let mut db = ReservationDb::new();
    db.load_reservations(snapshot());
    let once_mac = db.by_mac(test_mac(1)).unwrap();
    let once_duid = db.by_duid(&Duid::from_bytes(vec![1, 2, 3])).unwrap();
    let once_opt = db.by_opt82(&test_option82()).unwrap();
    db.load_reservations(snapshot());
    assert_eq!(db.by_mac(test_mac(1)).unwrap(), once_mac);
    assert_eq!(db.by_duid(&Duid::from_bytes(vec![1, 2, 3])).unwrap(), once_duid);
    assert_eq!(db.by_opt82(&test_option82()).unwrap(), once_opt);
    // The later reservation won the shared MAC key.
    assert_eq!(once_mac.ipv4, ipv4(10, 0, 0, 2));
}

#[test]
fn evict_expired_opt82() {
    let mut db = LeaseDb::new();
    let reservations = reservations_with_opt82(test_option82());
    let mac_old = test_mac(0x01);
    let mac_fresh = test_mac(0x02);

    db.insert_mac_option82_binding(&mac_old, &test_option82(), NOW);
    db.insert_mac_option82_binding(&mac_fresh, &test_option82(), NOW + 10);

    // Evict entries older than 5 ms, as seen 10 ms after the first insert.
    db.evict_expired(NOW + 10, 5, &reservations);

    assert!(db.get_opt82_by_mac(&mac_old).is_none(), "old entry should be evicted");
    assert!(db.get_opt82_by_mac(&mac_fresh).is_some(), "fresh entry should remain");
}

#[test]
fn evict_expired_leases() {
    let mut db = LeaseDb::new();
    let reservations = ReservationDb::new();

    db.lease_v4(&test_reservation(1), test_mac(0x01), None, 5, NOW);
    db.leased_new_v6(
        &test_reservation(2),
        LeaseV6 {
            first_leased: NOW,
            last_leased: NOW,
            valid_ms: 5,
            duid: Duid::from_bytes(vec![0x01]),
            mac: None,
        },
    );

    db.lease_v4(&test_reservation(3), test_mac(0x02), None, 3_600_000, NOW + 10);
    db.leased_new_v6(
        &test_reservation(4),
        LeaseV6 {
            first_leased: NOW + 10,
            last_leased: NOW + 10,
            valid_ms: 3_600_000,
            duid: Duid::from_bytes(vec![0x02]),
            mac: None,
        },
    );

    let (_, _, v4_evicted, v6_evicted) = db.evict_expired(NOW + 10, 3_600_000, &reservations);
    assert_eq!(v4_evicted, 1, "expired v4 lease should be evicted");
    assert_eq!(v6_evicted, 1, "expired v6 lease should be evicted");
    assert_eq!(db.v4.len(), 1);
    assert_eq!(db.v6.len(), 1);
}

#[test]
fn insert_mac_option82_updates_last_seen() {
    let mut db = LeaseDb::new();
    let reservations = reservations_with_opt82(test_option82());
    let mac = test_mac(0x20);

    db.insert_mac_option82_binding(&mac, &test_option82(), NOW);
    // Re-insert later to refresh the stamp.
    db.insert_mac_option82_binding(&mac, &test_option82(), NOW + 10);

    db.evict_expired(NOW + 10, 5, &reservations);
    assert!(db.get_opt82_by_mac(&mac).is_some());
}

#[test]
fn evict_orphaned_opt82_bindings() {
    let mut db = LeaseDb::new();
    let valid_opt82 = test_option82();
    let orphan_opt82 = Option82 {
        circuit: Some("orphan".to_string()),
        remote: None,
        subscriber: None,
    };
    let reservations = reservations_with_opt82(valid_opt82.clone());
    let valid_mac = test_mac(0x01);
    let orphan_mac = test_mac(0x02);

    db.insert_mac_option82_binding(&valid_mac, &valid_opt82, NOW);
    db.insert_mac_option82_binding(&orphan_mac, &orphan_opt82, NOW);
    assert_eq!(db.mac_to_opt82.len(), 2);

    let (expired, orphaned, _, _) = db.evict_expired(NOW, 3_600_000, &reservations);
    assert_eq!(expired, 0);
    assert_eq!(orphaned, 1);
    assert!(db.get_opt82_by_mac(&valid_mac).is_some());
    assert!(db.get_opt82_by_mac(&orphan_mac).is_none());
}

#[test]
fn test_peer_addr_eui64_extraction() {
    // MAC 00:1a:2b:3c:4d:5e appears as EUI-64 021a:2bff:fe3c:4d5e.
    let relay = relay_with_peer(ipv6(0xfe80, 0, 0, 0, 0x021a, 0x2bff, 0xfe3c, 0x4d5e));
    let msg = plain_solicit();
    let mac = MacExtractor::PeerAddrEui64.extract(&relay, &msg);
    assert_eq!(mac, Some(Mac::new([0x00, 0x1a, 0x2b, 0x3c, 0x4d, 0x5e])));
}

#[test]
fn test_peer_addr_non_eui64_returns_none() {
    let relay = relay_with_peer(ipv6(0xfe80, 0, 0, 0, 0x1234, 0x5678, 0x9abc, 0xdef0));
    let msg = plain_solicit();
    assert_eq!(MacExtractor::PeerAddrEui64.extract(&relay, &msg), None);
}

#[test]
fn test_peer_addr_non_link_local_returns_none() {
    let relay = relay_with_peer(ipv6(0x2001, 0xdb8, 0, 0, 0x021a, 0x2bff, 0xfe3c, 0x4d5e));
    let msg = plain_solicit();
    assert_eq!(MacExtractor::PeerAddrEui64.extract(&relay, &msg), None);
}

fn relay_with_peer(peer_addr: u128) -> V6RelayInfo {
    V6RelayInfo {
        hop_count: 0,
        link_addr: 0,
        peer_addr,
        interface_id: None,
        remote_id: None,
        client_ll: None,
    }
}

fn plain_solicit() -> V6Message {
    V6Message {
        msg_type: V6MsgType::Solicit,
        xid: 0,
        client_id: None,
        server_id: None,
        rapid_commit: false,
        preference: None,
        status: None,
        ia_nas: vec![],
        ia_pds: vec![],
    }
}

fn solicit_with_client_id(id: Vec<u8>) -> V6Message {
    let mut m = plain_solicit();
    m.client_id = Some(Duid::from_bytes(id));
    m
}

#[test]
fn test_duid_llt_extraction() {
    let duid_llt = vec![
        0x00, 0x01, // DUID-LLT
        0x00, 0x01, // Ethernet
        0x12, 0x34, 0x56, 0x78, // time
        0x00, 0x11, 0x22, 0x33, 0x44, 0x55, // hardware address
    ];
    let msg = solicit_with_client_id(duid_llt);
    let mac = MacExtractor::Duid.extract(&relay_with_peer(0), &msg);
    assert_eq!(mac, Some(Mac::new([0x00, 0x11, 0x22, 0x33, 0x44, 0x55])));
}

#[test]
fn test_duid_ll_extraction() {
    let duid_ll = vec![
        0x00, 0x03, // DUID-LL
        0x00, 0x01, // Ethernet
        0xaa, 0xbb, 0xcc, 0xdd, 0xee, 0xff, // hardware address
    ];
    let msg = solicit_with_client_id(duid_ll);
    let mac = MacExtractor::Duid.extract(&relay_with_peer(0), &msg);
    assert_eq!(mac, Some(Mac::new([0xaa, 0xbb, 0xcc, 0xdd, 0xee, 0xff])));
}

#[test]
fn test_duid_en_returns_none() {
    let duid_en = vec![0x00, 0x02, 0x00, 0x00, 0x00, 0x09, 0x01, 0x02, 0x03, 0x04];
    let msg = solicit_with_client_id(duid_en);
    assert_eq!(MacExtractor::Duid.extract(&relay_with_peer(0), &msg), None);
}

#[test]
fn test_duid_non_ethernet_returns_none() {
    let duid_ll_ib = vec![
        0x00, 0x03, // DUID-LL
        0x00, 0x20, // a hardware type that is not Ethernet
        0x00, 0x11, 0x22, 0x33, 0x44, 0x55, 0x66, 0x77,
    ];
    let msg = solicit_with_client_id(duid_ll_ib);
    assert_eq!(MacExtractor::Duid.extract(&relay_with_peer(0), &msg), None);
}

#[test]
fn test_extractor_names() {
    assert_eq!(
        MacExtractor::ClientLinklayerAddress.name(),
        "client_linklayer_address"
    );
    assert_eq!(MacExtractor::PeerAddrEui64.name(), "peer_addr_eui64");
    assert_eq!(MacExtractor::Duid.name(), "duid");
}

#[test]
fn client_ll_extraction_requires_six_bytes() {
    let mut relay = relay_with_peer(0);
    relay.client_ll = Some(ClientLinkLayerOption {
        address_type: 1,
        address: vec![1, 2, 3, 4, 5, 6, 7],
    });
    assert_eq!(
        MacExtractor::ClientLinklayerAddress.extract(&relay, &plain_solicit()),
        None
    );
    relay.client_ll = Some(ClientLinkLayerOption { address_type: 1, address: vec![1, 2, 3, 4, 5, 6] });
    assert_eq!(
        MacExtractor::ClientLinklayerAddress.extract(&relay, &plain_solicit()),
        Some(Mac::new([1, 2, 3, 4, 5, 6]))
    );
}

#[test]
fn mac_parse_and_render() {
    let m = mac_parse("ac8ba9e217f8").unwrap();
    assert_eq!(mac_canonical_string(&m), "AC-8B-A9-E2-17-F8");
    assert_eq!(mac_parse("AC-8B-A9-E2-17-F8"), Some(m));
    assert_eq!(mac_parse("ac:8b:a9:e2:17:f8"), Some(m));
    assert_eq!(mac_parse("ac-8b:a9-e2-17-f8"), None, "mixed separators are refused");
    assert_eq!(mac_parse("ac8ba9e217f"), None, "odd length is refused");
    assert_eq!(mac_parse("zz8ba9e217f8"), None, "non-hex is refused");
}

#[test]
fn netmask_values() {
    assert_eq!(netmask(24), ipv4(255, 255, 255, 0));
    assert_eq!(netmask(16), ipv4(255, 255, 0, 0));
    assert_eq!(netmask(0), 0);
    assert_eq!(netmask(32), u32::MAX);
}

#[test]
fn subnet_contains_checks_prefix() {
    let subnet = V4Subnet {
        net_addr: ipv4(192, 168, 1, 0),
        prefix_len: 24,
        gateway: ipv4(192, 168, 1, 1),
        reply_prefix_len: None,
    };
    assert!(subnet.contains(ipv4(192, 168, 1, 77)));
    assert!(!subnet.contains(ipv4(192, 168, 2, 77)));
    assert_eq!(subnet.reply_mask(), ipv4(255, 255, 255, 0));
    let overridden = V4Subnet { reply_prefix_len: Some(16), ..subnet };
    assert_eq!(overridden.reply_mask(), ipv4(255, 255, 0, 0));
}

#[test]
fn backoff_doubles_and_caps() {
    assert_eq!(backoff_ms(0), 10);
    assert_eq!(backoff_ms(1), 20);
    assert_eq!(backoff_ms(2), 40);
    assert_eq!(backoff_ms(6), 640);
    assert_eq!(backoff_ms(7), 1000);
    assert_eq!(backoff_ms(1000), 1000);
}

#[test]
fn hex_dump_matches_text2pcap_layout() {
    assert_eq!(hex_for_text2pcap(&[]), "0000 ");
    assert_eq!(hex_for_text2pcap(&[0x01, 0xa4, 0xcf, 0x70]), "0000  01 a4 cf 70");
}

#[test]
fn clock_reads_do_not_go_backwards() {
    let a = now();
    let b = now();
    assert!(b >= a);
}

#[test]
fn mgmt_responses() {
    let (db, count) = build_index(vec![test_reservation(1), test_reservation(2)]);
    assert_eq!(count, 2);
    assert!(db.by_mac(test_mac(9)).is_none());

    let r = reload_response(17);
    assert!(r.success);
    assert_eq!(r.message.as_deref(), Some("Reloaded 17 reservations"));
    assert_eq!(r.reservation_count, Some(17));

    let r = replace_response(3);
    assert_eq!(r.message.as_deref(), Some("Replaced with 3 reservations"));

    let r = status_response(5);
    assert_eq!(r.message.as_deref(), Some("Status OK"));
    assert_eq!(r.reservation_count, Some(5));

    let r = failure_response("Invalid request: trailing input".to_string());
    assert!(!r.success);
    assert_eq!(r.error.as_deref(), Some("Invalid request: trailing input"));
    assert!(r.message.is_none());

    assert_eq!(u64_dec(0), "0");
    assert_eq!(u64_dec(102), "102");
}

#[test]
fn reservation_set_survives_a_json_round_trip() {
    // Parse a reservation file, write it back out, parse again: the set is
    // unchanged, and both copies index identically.
    let json_str = r#"
    [
        {
            "ipv4": "192.168.1.109",
            "ipv6_na": "2001:db8:1:2::1",
            "ipv6_pd": "2001:db8:1:3::/56",
            "mac": "00-11-22-33-44-55"
        },
        {
            "ipv4": "192.168.1.112",
            "ipv6_na": "2001:db8:1:8::1",
            "ipv6_pd": "2001:db8:1:9::/56",
            "duid": "29:30:31:32",
            "option82": {"subscriber": "subscriber:1020"}
        }
    ]
    "#;
    let first = parse_reservations_json(json_str);
    let rendered = render_reservations_json(&first);
    let second = parse_reservations_json(&rendered);
    assert_eq!(first, second);

    let mut db1 = ReservationDb::new();
    db1.load_reservations(first);
    let mut db2 = ReservationDb::new();
    db2.load_reservations(second);
    let duid = Duid::from_bytes(vec![0x29, 0x30, 0x31, 0x32]);
    assert_eq!(db1.by_duid(&duid), db2.by_duid(&duid));
    let mac = Mac::new([0x00, 0x11, 0x22, 0x33, 0x44, 0x55]);
    assert_eq!(db1.by_mac(mac), db2.by_mac(mac));
}

fn parse_reservations_json(text: &str) -> Vec<Reservation> {
    let value: serde_json::Value = serde_json::from_str(text).unwrap();
    let mut out = Vec::new();
    for item in value.as_array().unwrap() {
        let ip4: std::vec::Vec<u8> = item["ipv4"]
            .as_str()
            .unwrap()
            .split('.')
            .map(|p| p.parse().unwrap())
            .collect();
        let na = parse_ipv6(item["ipv6_na"].as_str().unwrap());
        let (pd_addr, pd_len) = {
            let s = item["ipv6_pd"].as_str().unwrap();
            let (a, l) = s.split_once('/').unwrap();
            (parse_ipv6(a), l.parse::<u8>().unwrap())
        };
        out.push(Reservation {
            ipv4: ipv4(ip4[0], ip4[1], ip4[2], ip4[3]),
            ipv6_na: na,
            ipv6_pd: V6Prefix { addr: pd_addr, prefix_len: pd_len },
            mac: item["mac"].as_str().map(|s| {
                shadowdhcp::mac::mac_parse(s).expect("reservation mac")
            }),
            duid: item["duid"].as_str().map(|s| Duid::try_from_str(s).unwrap()),
            option82: item.get("option82").filter(|v| !v.is_null()).map(|o| Option82 {
                circuit: o.get("circuit").and_then(|v| v.as_str()).map(str::to_string),
                remote: o.get("remote").and_then(|v| v.as_str()).map(str::to_string),
                subscriber: o.get("subscriber").and_then(|v| v.as_str()).map(str::to_string),
            }),
            option1837: None,
        });
    }
    out
}

fn render_reservations_json(reservations: &[Reservation]) -> String {
    let mut items = Vec::new();
    for r in reservations {
        let mut obj = serde_json::Map::new();
        obj.insert("ipv4".to_string(), serde_json::Value::String(render_ipv4(r.ipv4)));
        obj.insert("ipv6_na".to_string(), serde_json::Value::String(render_ipv6(r.ipv6_na)));
        obj.insert(
            "ipv6_pd".to_string(),
            serde_json::Value::String(format!(
                "{}/{}",
                render_ipv6(r.ipv6_pd.addr),
                r.ipv6_pd.prefix_len
            )),
        );
        if let Some(m) = r.mac {
            obj.insert(
                "mac".to_string(),
                serde_json::Value::String(shadowdhcp::mac::mac_canonical_string(&m)),
            );
        }
        if let Some(d) = &r.duid {
            obj.insert("duid".to_string(), serde_json::Value::String(d.to_colon_string()));
        }
        if let Some(o) = &r.option82 {
            let mut inner = serde_json::Map::new();
            if let Some(c) = &o.circuit {
                inner.insert("circuit".to_string(), serde_json::Value::String(c.clone()));
            }
            if let Some(c) = &o.remote {
                inner.insert("remote".to_string(), serde_json::Value::String(c.clone()));
            }
            if let Some(c) = &o.subscriber {
                inner.insert("subscriber".to_string(), serde_json::Value::String(c.clone()));
            }
            obj.insert("option82".to_string(), serde_json::Value::Object(inner));
        }
        items.push(serde_json::Value::Object(obj));
    }
    serde_json::Value::Array(items).to_string()
}

fn parse_ipv6(s: &str) -> u128 {
    // Expanded or `::`-compressed hex groups, enough for the test fixtures.
    let (head, tail) = match s.split_once("::") {
        Some((h, t)) => (h, t),
        None => (s, ""),
    };
    let head_groups: std::vec::Vec<u16> = head
        .split(':')
        .filter(|p| !p.is_empty())
        .map(|p| u16::from_str_radix(p, 16).unwrap())
        .collect();
    let tail_groups: std::vec::Vec<u16> = tail
        .split(':')
        .filter(|p| !p.is_empty())
        .map(|p| u16::from_str_radix(p, 16).unwrap())
        .collect();
    let mut groups = [0u16; 8];
    for (i, g) in head_groups.iter().enumerate() {
        groups[i] = *g;
    }
    for (i, g) in tail_groups.iter().rev().enumerate() {
        groups[7 - i] = *g;
    }
    ipv6(
        groups[0], groups[1], groups[2], groups[3], groups[4], groups[5], groups[6], groups[7],
    )
}

fn render_ipv4(a: u32) -> String {
    format!("{}.{}.{}.{}", a >> 24, (a >> 16) & 0xff, (a >> 8) & 0xff, a & 0xff)
}

fn render_ipv6(a: u128) -> String {
    let mut parts = Vec::new();
    for i in 0..8 {
        parts.push(format!("{:x}", (a >> (112 - 16 * i)) & 0xffff));
    }
    parts.join(":")
}
