//! The Option 82 and Option 18/37 extractor pipelines.

use shadowdhcp::extractors::{circuit_and_remote, circuit_only, normalize_remote_mac,
    remote_first_12, remote_only, remote_only_trim, subscriber_only, Option82Extractor};
use shadowdhcp::extractors_v6::{all_fields, interface_and_remote, interface_only,
    remote_with_enterprise, Option1837Extractor};
use shadowdhcp::types::{Option1837, Option82};

fn s(v: &str) -> Option<String> {
    Some(v.to_string())
}

#[test]
fn extractors_test_remote_only() {
    let wire_opt = Option82 {
        circuit: s("eth0"),
        remote: s("001122334455"),
        subscriber: s("id1"),
    };
    let extracted = remote_only(&wire_opt);
    assert_eq!(
        extracted,
        Some(Option82 { circuit: None, remote: s("001122334455"), subscriber: None })
    );
}

#[test]
fn test_remote_only_trim() {
    let wire_opt = Option82 {
        circuit: s("eth0"),
        remote: s("001122334455"),
        subscriber: s("id1"),
    };
    let wire_opt_space = Option82 {
        circuit: s("eth0"),
        remote: s("001122334455 "),
        subscriber: s("id1"),
    };
    let wire_opt_null = Option82 {
        circuit: s("eth0"),
        remote: s("001122334455\0"),
        subscriber: s("id1"),
    };
    let wire_opt_vt = Option82 {
        circuit: s("eth0"),
        remote: s("001122334455\u{000b}"),
        subscriber: s("id1"),
    };
    let desired = Some(Option82 { circuit: None, remote: s("001122334455"), subscriber: None });
    assert_eq!(remote_only_trim(&wire_opt), desired);
    assert_eq!(remote_only_trim(&wire_opt_space), desired);
    assert_eq!(remote_only_trim(&wire_opt_null), desired);
    assert_eq!(remote_only_trim(&wire_opt_vt), desired);
}

#[test]
fn test_circuit_only() {
    let wire_opt = Option82 {
        circuit: s("eth0"),
        remote: s("001122334455"),
        subscriber: s("id1"),
    };
    let extracted = circuit_only(&wire_opt);
    assert_eq!(
        extracted,
        Some(Option82 { circuit: s("eth0"), remote: None, subscriber: None })
    );
}

#[test]
fn test_subscriber_only() {
    let wire_opt = Option82 {
        circuit: s("eth0"),
        remote: s("001122334455"),
        subscriber: s("id1"),
    };
    let extracted = subscriber_only(&wire_opt);
    assert_eq!(
        extracted,
        Some(Option82 { circuit: None, remote: None, subscriber: s("id1") })
    );
}

#[test]
fn test_circuit_and_remote() {
    let wire_opt = Option82 {
        circuit: s("eth0"),
        remote: s("001122334455"),
        subscriber: s("id1"),
    };
    let extracted = circuit_and_remote(&wire_opt);
    assert_eq!(
        extracted,
        Some(Option82 { circuit: s("eth0"), remote: s("001122334455"), subscriber: None })
    );
}

#[test]
fn test_extract_ubiquiti_ufiber() {
    let wire_opt = Option82 {
        circuit: s("b4fbe4501fda/1/ac8ba9e217f8"),
        remote: s("ac8ba9e217f8"),
        subscriber: None,
    };
    let extracted = remote_first_12(&wire_opt);
    assert_eq!(
        extracted,
        Some(Option82 { circuit: None, remote: s("AC-8B-A9-E2-17-F8"), subscriber: None })
    );
}

#[test]
fn test_normalize_remote_mac() {
    let wire_opt = Option82 { circuit: None, remote: s("001122334455"), subscriber: None };
    let extracted = normalize_remote_mac(&wire_opt);
    assert_eq!(
        extracted,
        Some(Option82 { circuit: None, remote: s("00-11-22-33-44-55"), subscriber: None })
    );
}

#[test]
fn normalize_remote_mac_accepts_separated_forms() {
    for remote in ["00:11:22:33:44:55", "00-11-22-33-44-55"] {
        let wire_opt = Option82 { circuit: None, remote: s(remote), subscriber: None };
        let extracted = normalize_remote_mac(&wire_opt);
        assert_eq!(
            extracted,
            Some(Option82 { circuit: None, remote: s("00-11-22-33-44-55"), subscriber: None })
        );
    }
    let bad = Option82 { circuit: None, remote: s("not-a-mac"), subscriber: None };
    assert_eq!(normalize_remote_mac(&bad), None);
}

#[test]
fn option82_extractor_names_round_trip() {
    for e in shadowdhcp::extractors::get_all_extractors() {
        assert_eq!(Option82Extractor::from_name(e.name()), Some(e));
    }
    assert_eq!(Option82Extractor::from_name("no_such_extractor"), None);
}

#[test]
fn test_interface_only() {
    let opt = Option1837 {
        interface: s("eth0/1"),
        remote: s("remote-id"),
        enterprise_number: Some(12345),
    };
    let extracted = interface_only(&opt);
    assert_eq!(
        extracted,
        Some(Option1837 { interface: s("eth0/1"), remote: None, enterprise_number: None })
    );
}

#[test]
fn test_remote_only() {
    let opt = Option1837 {
        interface: s("eth0/1"),
        remote: s("remote-id"),
        enterprise_number: Some(12345),
    };
    let extracted = shadowdhcp::extractors_v6::remote_only(&opt);
    assert_eq!(
        extracted,
        Some(Option1837 { interface: None, remote: s("remote-id"), enterprise_number: None })
    );
}

#[test]
fn test_interface_and_remote() {
    let opt = Option1837 {
        interface: s("eth0/1"),
        remote: s("remote-id"),
        enterprise_number: Some(12345),
    };
    let extracted = interface_and_remote(&opt);
    assert_eq!(
        extracted,
        Some(Option1837 {
            interface: s("eth0/1"),
            remote: s("remote-id"),
            enterprise_number: None,
        })
    );
    let opt_no_remote = Option1837 {
        interface: s("eth0/1"),
        remote: None,
        enterprise_number: None,
    };
    assert_eq!(interface_and_remote(&opt_no_remote), None);
}

#[test]
fn test_remote_with_enterprise() {
    let opt = Option1837 {
        interface: s("eth0/1"),
        remote: s("remote-id"),
        enterprise_number: Some(12345),
    };
    let extracted = remote_with_enterprise(&opt);
    assert_eq!(
        extracted,
        Some(Option1837 {
            interface: None,
            remote: s("remote-id"),
            enterprise_number: Some(12345),
        })
    );
    let opt_no_enterprise = Option1837 {
        interface: None,
        remote: s("remote-id"),
        enterprise_number: None,
    };
    assert_eq!(remote_with_enterprise(&opt_no_enterprise), None);
}

#[test]
fn all_fields_requires_an_identifier() {
    let opt = Option1837 {
        interface: s("eth0/1"),
        remote: s("remote-id"),
        enterprise_number: Some(12345),
    };
    assert_eq!(all_fields(&opt), Some(opt.clone()));
    let empty = Option1837 { interface: None, remote: None, enterprise_number: Some(7) };
    assert_eq!(all_fields(&empty), None);
}

#[test]
fn option1837_extractor_names_round_trip() {
    for e in shadowdhcp::extractors_v6::get_all_extractors() {
        assert_eq!(Option1837Extractor::from_name(e.name()), Some(e));
    }
    assert_eq!(Option1837Extractor::from_name("bogus"), None);
}
