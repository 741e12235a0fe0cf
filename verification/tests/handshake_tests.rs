use texnouz_csms::handshake::{decide_handshake, extract_charge_point_id};
use texnouz_csms::negotiator::ProtocolNegotiator;
use texnouz_csms::ocpp_version::OcppVersion;

#[test]
fn charge_point_id_from_paths() {
    assert_eq!(extract_charge_point_id("/ocpp/CP001"), Some("CP001".to_string()));
    assert_eq!(extract_charge_point_id("ocpp//CP002"), Some("CP002".to_string()));
    assert_eq!(extract_charge_point_id("/CP003"), Some("CP003".to_string()));
    assert_eq!(extract_charge_point_id("//CP004"), Some("CP004".to_string()));
    assert_eq!(extract_charge_point_id("/ocpp/a/b"), Some("a/b".to_string()));
    assert_eq!(extract_charge_point_id("/"), None);
    assert_eq!(extract_charge_point_id(""), None);
    assert_eq!(extract_charge_point_id("/a/b"), None);
    assert_eq!(extract_charge_point_id("/ocpp/"), None);
    assert_eq!(extract_charge_point_id("/ocpp"), Some("ocpp".to_string()));
}

fn all_versions() -> ProtocolNegotiator {
    ProtocolNegotiator::new(vec![OcppVersion::V21, OcppVersion::V201, OcppVersion::V16])
}

#[test]
fn handshake_negotiates_and_reads_path() {
    let out = decide_handshake(&all_versions(), "ocpp1.6,ocpp2.0.1", "/ocpp/CP-9", 5000);
    assert_eq!(out.version, OcppVersion::V201);
    assert_eq!(out.accepted_subprotocol, Some(OcppVersion::V201));
    assert_eq!(out.charge_point_id, "CP-9");
}

#[test]
fn handshake_falls_back_to_least_preferred() {
    let out = decide_handshake(&all_versions(), "ocpp9", "/x", 1);
    assert_eq!(out.version, OcppVersion::V16);
    assert_eq!(out.accepted_subprotocol, None);
    let only_new = ProtocolNegotiator::new(vec![OcppVersion::V21, OcppVersion::V201]);
    let out = decide_handshake(&only_new, "ocpp1.6", "/x", 1);
    assert_eq!(out.version, OcppVersion::V201);
}

#[test]
fn handshake_without_header_speaks_16() {
    let only_new = ProtocolNegotiator::new(vec![OcppVersion::V201]);
    let out = decide_handshake(&only_new, "", "/ocpp/A", 1);
    assert_eq!(out.version, OcppVersion::V16);
    assert_eq!(out.accepted_subprotocol, None);
}

#[test]
fn handshake_names_anonymous_connections_by_port() {
    let out = decide_handshake(&all_versions(), "ocpp1.6", "/a/b", 40123);
    assert_eq!(out.charge_point_id, "CP_40123");
    let out = decide_handshake(&all_versions(), "ocpp1.6", "/", 0);
    assert_eq!(out.charge_point_id, "CP_0");
}
