use texnouz_csms::negotiator::{OcppAdapterFactory, ProtocolAdapters, ProtocolNegotiator};
use texnouz_csms::ocpp_version::OcppVersion;

#[test]
fn negotiate_single_match() {
    let negotiator = ProtocolNegotiator::new(vec![OcppVersion::V16]);
    assert_eq!(negotiator.negotiate("ocpp1.6"), Some(OcppVersion::V16));
}

#[test]
fn negotiate_multiple_prefers_highest() {
    let negotiator =
        ProtocolNegotiator::new(vec![OcppVersion::V21, OcppVersion::V201, OcppVersion::V16]);
    // CP supports both 1.6 and 2.0.1 — CS should pick 2.0.1 (highest mutual)
    assert_eq!(negotiator.negotiate("ocpp1.6, ocpp2.0.1"), Some(OcppVersion::V201));
}

#[test]
fn negotiate_no_match() {
    let negotiator = ProtocolNegotiator::new(vec![OcppVersion::V16]);
    assert_eq!(negotiator.negotiate("ocpp2.0.1"), None);
}

#[test]
fn negotiate_empty_header() {
    let negotiator = ProtocolNegotiator::new(vec![OcppVersion::V16]);
    assert_eq!(negotiator.negotiate(""), None);
}

#[test]
fn negotiate_trims_entries_and_needs_exact_names() {
    let negotiator = ProtocolNegotiator::new(vec![OcppVersion::V201]);
    assert_eq!(negotiator.negotiate("  ocpp2.0.1  ,x"), Some(OcppVersion::V201));
    assert_eq!(negotiator.negotiate("OCPP2.0.1"), None);
    assert_eq!(negotiator.negotiate("ocpp2.0"), None);
}

#[test]
fn negotiate_follows_server_preference_not_header_order() {
    let negotiator = ProtocolNegotiator::new(vec![OcppVersion::V16, OcppVersion::V21]);
    assert_eq!(negotiator.negotiate("ocpp2.1,ocpp1.6"), Some(OcppVersion::V16));
}

#[test]
fn supported_lists_keep_order() {
    let negotiator = ProtocolNegotiator::new(vec![OcppVersion::V201, OcppVersion::V16]);
    assert_eq!(negotiator.supported_versions(), &[OcppVersion::V201, OcppVersion::V16]);
    assert_eq!(negotiator.supported_subprotocols(), vec!["ocpp2.0.1", "ocpp1.6"]);
}

#[test]
fn version_names_and_ranks() {
    assert_eq!(OcppVersion::V16.subprotocol(), "ocpp1.6");
    assert_eq!(OcppVersion::V201.subprotocol(), "ocpp2.0.1");
    assert_eq!(OcppVersion::V21.subprotocol(), "ocpp2.1");
    assert_eq!(OcppVersion::V16.version_string(), "1.6");
    assert_eq!(OcppVersion::V201.version_string(), "2.0.1");
    assert_eq!(OcppVersion::V21.version_string(), "2.1");
    assert!(OcppVersion::V16.rank() < OcppVersion::V201.rank());
    assert!(OcppVersion::V201.rank() < OcppVersion::V21.rank());
}

struct EchoFactory {
    version: OcppVersion,
}

impl OcppAdapterFactory for EchoFactory {
    type Adapter = (OcppVersion, String);

    fn create_inbound_adapter(&self, charge_point_id: String) -> Self::Adapter {
        (self.version, charge_point_id)
    }

    fn version(&self) -> OcppVersion {
        self.version
    }
}

#[test]
fn registry_builds_newest_first_negotiator() {
    let mut adapters: ProtocolAdapters<EchoFactory> = ProtocolAdapters::new();
    assert!(adapters.supported_versions().is_empty());
    adapters.register(OcppVersion::V16, EchoFactory { version: OcppVersion::V16 });
    adapters.register(OcppVersion::V21, EchoFactory { version: OcppVersion::V21 });
    adapters.register(OcppVersion::V201, EchoFactory { version: OcppVersion::V201 });
    assert_eq!(
        adapters.supported_versions(),
        vec![OcppVersion::V21, OcppVersion::V201, OcppVersion::V16]
    );
    let negotiator = adapters.build_negotiator();
    assert_eq!(negotiator.negotiate("ocpp1.6, ocpp2.0.1"), Some(OcppVersion::V201));
    assert_eq!(negotiator.negotiate("ocpp2.1,ocpp1.6"), Some(OcppVersion::V21));
}

#[test]
fn registry_creates_adapters_only_for_registered_versions() {
    let mut adapters: ProtocolAdapters<EchoFactory> = ProtocolAdapters::default();
    adapters.register(OcppVersion::V16, EchoFactory { version: OcppVersion::V16 });
    let made = adapters.create_adapter(OcppVersion::V16, "CP-1".to_string());
    assert_eq!(made, Some((OcppVersion::V16, "CP-1".to_string())));
    assert!(adapters.create_adapter(OcppVersion::V201, "CP-1".to_string()).is_none());
    let negotiator = adapters.build_negotiator();
    assert_eq!(negotiator.negotiate("ocpp2.0.1"), None);
}
