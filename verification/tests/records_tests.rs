use texnouz_csms::ocpp_version::OcppVersion;
use texnouz_csms::charge_points::{
    charge_point_stats, connector_status_to_string, ChargePoint, ChargePointDto, ChargePointState, Connector, ConnectorDto,
    ConnectorStatus, CreateConnectorRequest, SetPasswordRequest, SetPasswordResponse,
};
use texnouz_csms::id_tags::{
    default_page, default_page_size, default_status, id_tag_page_window, parse_status,
    CreateIdTagRequest, IdTagStatus,
};
use texnouz_csms::tariffs::{
    parse_tariff_type, CostPreviewRequest, CreateTariffRequest, Tariff, TariffType,
    UpdateTariffRequest,
};
use texnouz_csms::validation::validate_pagination;

#[test]
fn connector_names() {
    assert_eq!(connector_status_to_string(&ConnectorStatus::SuspendedEVSE), "SuspendedEVSE");
    assert_eq!(connector_status_to_string(&ConnectorStatus::Faulted), "Faulted");
    let dto = ConnectorDto::from_domain(Connector {
        id: 2,
        status: ConnectorStatus::Charging,
        error_code: Some("NoError".to_string()),
        info: Some("ok".to_string()),
    });
    assert_eq!(dto.id, 2);
    assert_eq!(dto.status, "Charging");
    assert_eq!(dto.error_code.as_deref(), Some("NoError"));
    assert_eq!(dto.error_info.as_deref(), Some("ok"));
}

#[test]
fn stats_count_online_and_charging() {
    let points = vec![
        ChargePointState { is_online: true, connectors: vec![ConnectorStatus::Charging] },
        ChargePointState { is_online: true, connectors: vec![ConnectorStatus::Available] },
        ChargePointState { is_online: false, connectors: vec![ConnectorStatus::Charging] },
    ];
    let s = charge_point_stats(&points);
    assert_eq!((s.total, s.online, s.offline, s.charging), (3, 2, 1, 1));
    let s = charge_point_stats(&vec![]);
    assert_eq!((s.total, s.online, s.offline, s.charging), (0, 0, 0, 0));
}

#[test]
fn charge_point_requests() {
    assert_eq!(CreateConnectorRequest { connector_id: 0 }.validate().len(), 1);
    assert!(CreateConnectorRequest { connector_id: 1 }.validate().is_empty());
    assert_eq!(SetPasswordRequest { password: "short".to_string() }.validate().len(), 1);
    assert!(SetPasswordRequest { password: "longenough".to_string() }.validate().is_empty());
    let set = SetPasswordResponse::password_set("CP1");
    assert_eq!(set.message, "Password set for charge point 'CP1'. Use Basic Auth for WS connections.");
    assert!(set.has_password);
    let removed = SetPasswordResponse::password_removed("CP1");
    assert_eq!(removed.message, "Password removed for charge point 'CP1'. Basic Auth will be rejected.");
    assert!(!removed.has_password);
}

#[test]
fn id_tag_defaults_and_status() {
    assert_eq!(default_status(), "Accepted");
    assert_eq!(default_page(), 1);
    assert_eq!(default_page_size(), 20);
    assert_eq!(parse_status("BLOCKED"), IdTagStatus::Blocked);
    assert_eq!(parse_status("concurrentTx"), IdTagStatus::ConcurrentTx);
    assert_eq!(parse_status("whatever"), IdTagStatus::Accepted);
    assert_eq!(id_tag_page_window(3, 10), (3, 10, 20));
    assert_eq!(id_tag_page_window(0, 0), (1, 1, 0));
    assert_eq!(id_tag_page_window(2, 500), (2, 100, 100));
    let req = CreateIdTagRequest {
        id_tag: String::new(),
        parent_id_tag: None,
        status: "Accepted".to_string(),
        user_id: None,
        name: None,
        expiry_date: None,
        max_active_transactions: None,
    };
    assert_eq!(req.check().as_deref(), Some("IdTag value cannot be empty"));
}

#[test]
fn pagination_clamps() {
    assert_eq!(validate_pagination(None, None), (1, 20));
    assert_eq!(validate_pagination(Some(0), Some(0)), (1, 1));
    assert_eq!(validate_pagination(Some(7), Some(1000)), (7, 100));
}

fn tariff() -> Tariff {
    Tariff {
        id: 5,
        name: "Base".to_string(),
        description: Some("d".to_string()),
        tariff_type: TariffType::PerKwh,
        price_per_kwh: 100,
        price_per_minute: 0,
        session_fee: 0,
        currency: "UZS".to_string(),
        min_fee: 0,
        max_fee: 0,
        is_active: true,
        is_default: false,
        valid_from: None,
        valid_until: None,
        created_at: 10,
        updated_at: 10,
    }
}

#[test]
fn tariff_types_and_creation() {
    assert_eq!(parse_tariff_type("PerMinute"), TariffType::PerMinute);
    assert_eq!(parse_tariff_type("Combined"), TariffType::Combined);
    assert_eq!(parse_tariff_type("perminute"), TariffType::PerKwh);
    let req = CreateTariffRequest {
        name: "Night".to_string(),
        description: None,
        tariff_type: "PerSession".to_string(),
        price_per_kwh: 0,
        price_per_minute: 0,
        session_fee: 5000,
        currency: "UZS".to_string(),
        min_fee: None,
        max_fee: Some(9000),
        is_active: None,
        is_default: None,
        valid_from: None,
        valid_until: None,
    };
    assert!(req.validate().is_empty());
    let t = req.into_tariff(42);
    assert_eq!(t.id, 0);
    assert_eq!(t.tariff_type, TariffType::PerSession);
    assert_eq!((t.min_fee, t.max_fee, t.is_active, t.is_default), (0, 9000, true, false));
    assert_eq!((t.created_at, t.updated_at), (42, 42));
}

#[test]
fn tariff_update_merges_given_fields() {
    let upd = UpdateTariffRequest {
        name: None,
        description: None,
        tariff_type: Some("Combined".to_string()),
        price_per_kwh: Some(150),
        price_per_minute: None,
        session_fee: None,
        currency: None,
        min_fee: None,
        max_fee: None,
        is_active: Some(false),
        is_default: None,
        valid_from: Some(100),
        valid_until: None,
    };
    let t = upd.apply(tariff(), 77);
    assert_eq!(t.id, 5);
    assert_eq!(t.name, "Base");
    assert_eq!(t.description.as_deref(), Some("d"));
    assert_eq!(t.tariff_type, TariffType::Combined);
    assert_eq!(t.price_per_kwh, 150);
    assert!(!t.is_active);
    assert_eq!(t.valid_from, Some(100));
    assert_eq!((t.created_at, t.updated_at), (10, 77));
}

#[test]
fn cost_preview_rules() {
    let ok = CostPreviewRequest { tariff_id: None, energy_wh: 0, duration_seconds: 0 };
    assert!(ok.validate().is_empty());
    let bad = CostPreviewRequest { tariff_id: None, energy_wh: -1, duration_seconds: -1 };
    let errs = bad.validate();
    assert_eq!(errs.len(), 2);
    assert_eq!(errs[0].field, "energy_wh");
    assert_eq!(errs[1].field, "duration_seconds");
}

#[test]
fn charge_point_api_form() {
    let cp = ChargePoint {
        id: "CP1".to_string(),
        ocpp_version: Some(OcppVersion::V201),
        vendor: Some("ABB".to_string()),
        model: None,
        serial_number: None,
        firmware_version: Some("1.2".to_string()),
        iccid: None,
        imsi: None,
        meter_type: None,
        meter_serial_number: None,
        status: "Online".to_string(),
        connectors: vec![
            Connector { id: 1, status: ConnectorStatus::Available, error_code: None, info: None },
            Connector { id: 2, status: ConnectorStatus::Faulted, error_code: Some("GroundFailure".to_string()), info: Some("x".to_string()) },
        ],
        registered_at: 100,
        last_heartbeat: Some(200),
    };
    let dto = ChargePointDto::from_domain(cp, true);
    assert_eq!(dto.ocpp_version.as_deref(), Some("2.0.1"));
    assert_eq!(dto.vendor.as_deref(), Some("ABB"));
    assert!(dto.is_online);
    assert_eq!(dto.connectors.len(), 2);
    assert_eq!(dto.connectors[1].status, "Faulted");
    assert_eq!(dto.connectors[1].error_info.as_deref(), Some("x"));
    assert_eq!((dto.registered_at, dto.last_heartbeat), (100, Some(200)));
}
