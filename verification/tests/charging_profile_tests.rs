use serde_json::Value;
use texnouz_csms::charging_profiles::{
    accepted_profile_record, profile_deactivation, profile_record, JsonMember, ProfileDeactivation,
};
use texnouz_csms::commands::ClearChargingProfileRequest;

fn object(pairs: Vec<(&str, Value)>) -> Value {
    let mut m = serde_json::Map::new();
    for (k, v) in pairs {
        m.insert(k.to_string(), v);
    }
    Value::Object(m)
}

#[test]
fn record_reads_camel_case_fields() {
    let schedule = Value::Array(vec![object(vec![("duration", Value::from(3600))])]);
    let profile = object(vec![
        ("chargingProfileId", Value::from(5)),
        ("stackLevel", Value::from(2)),
        ("chargingProfilePurpose", Value::from("TxProfile")),
        ("chargingProfileKind", Value::from("Recurring")),
        ("recurrencyKind", Value::from("Daily")),
        ("validFrom", Value::from("2030-01-01T00:00:00Z")),
        ("validTo", Value::from("not a date")),
        ("chargingSchedule", schedule),
    ]);
    let r = accepted_profile_record("CP1", 1, &profile, 77);
    assert_eq!(r.id, 0);
    assert_eq!(r.charge_point_id, "CP1");
    assert_eq!(r.evse_id, 1);
    assert_eq!((r.profile_id, r.stack_level), (5, 2));
    assert_eq!(r.purpose, "TxProfile");
    assert_eq!(r.kind, "Recurring");
    assert_eq!(r.recurrency_kind.as_deref(), Some("Daily"));
    assert_eq!(r.valid_from, Some((1_893_456_000, 0)));
    assert_eq!(r.valid_to, None);
    assert_eq!(r.schedule_json, r#"[{"duration":3600}]"#);
    assert!(r.is_active);
    assert_eq!((r.created_at, r.updated_at), (77, 77));
}

#[test]
fn record_falls_back_to_snake_case_and_defaults() {
    let profile = object(vec![("id", Value::from(9)), ("stack_level", Value::from("high"))]);
    let r = accepted_profile_record("CP1", 0, &profile, 1);
    assert_eq!((r.profile_id, r.stack_level), (9, 0));
    assert_eq!(r.purpose, "TxDefaultProfile");
    assert_eq!(r.kind, "Absolute");
    assert!(r.recurrency_kind.is_none());
    assert_eq!(r.schedule_json, "[]");
    // a present camel-case key wins even when its value is not an integer
    let profile = object(vec![("chargingProfileId", Value::from("7")), ("id", Value::from(9))]);
    assert_eq!(accepted_profile_record("CP1", 0, &profile, 1).profile_id, 0);
    // not an object: every field takes its default
    let r = accepted_profile_record("CP1", 0, &Value::from(3), 1);
    assert_eq!((r.profile_id, r.purpose.as_str(), r.schedule_json.as_str()), (0, "TxDefaultProfile", "[]"));
}

#[test]
fn record_from_members_truncates_to_i32() {
    let members = vec![JsonMember {
        key: "chargingProfileId".to_string(),
        as_i64: Some(4_294_967_297),
        as_str: None,
        json_text: "4294967297".to_string(),
    }];
    assert_eq!(profile_record("CP", 0, &members, 0).profile_id, 1);
}

fn clear(id: Option<i32>) -> ClearChargingProfileRequest {
    ClearChargingProfileRequest {
        charging_profile_id: id,
        evse_id: Some(1),
        charging_profile_purpose: Some("TxProfile".to_string()),
        stack_level: None,
    }
}

#[test]
fn deactivation_after_clear() {
    assert!(matches!(profile_deactivation(&clear(Some(4)), "Accepted"), ProfileDeactivation::ById(4)));
    match profile_deactivation(&clear(None), "Accepted") {
        ProfileDeactivation::ByCriteria { evse_id, purpose, stack_level } => {
            assert_eq!(evse_id, Some(1));
            assert_eq!(purpose.as_deref(), Some("TxProfile"));
            assert_eq!(stack_level, None);
        }
        _ => panic!("expected deactivation by criteria"),
    }
    assert!(matches!(profile_deactivation(&clear(Some(4)), "Unknown"), ProfileDeactivation::Nothing));
}
