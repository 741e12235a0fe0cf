use texnouz_csms::commands::{
    command_outcome, configuration_keys, is_valid_update_type, parse_availability,
    parse_reset_kind, parse_trigger_type, Availability, AuthorizationEntryDto,
    ChangeAvailabilityRequest, ChangeConfigurationRequest, ChargingProfileQueryParams,
    CommandKind, CommandResponse, DataTransferRequest, GetVariablesRequest, RemoteStopRequest,
    ResetKind, ResetRequest, SendLocalListRequest, SetVariablesRequest, TriggerMessageRequest,
    TriggerType, UnlockConnectorRequest, VariableAssignment, VariableSelector,
};
use texnouz_csms::validation::{rejection_message, FieldError};

fn fields(errors: &[FieldError]) -> Vec<(String, String)> {
    errors.iter().map(|e| (e.field.clone(), e.message.clone())).collect()
}

#[test]
fn command_responses() {
    let a = CommandResponse::accepted();
    assert_eq!(a.status, "Accepted");
    assert_eq!(a.message.as_deref(), Some("Command sent successfully"));
    let r = CommandResponse::rejected("busy");
    assert_eq!(r.status, "Rejected");
    assert_eq!(r.message.as_deref(), Some("busy"));
    let s = CommandResponse::from_status("Scheduled");
    assert_eq!(s.status, "Scheduled");
    assert!(s.message.is_none());
}

#[test]
fn outcome_messages_follow_the_reply() {
    let r = command_outcome(CommandKind::RemoteStop, "Accepted".to_string());
    assert_eq!(r.status, "Accepted");
    assert_eq!(r.message.as_deref(), Some("Remote stop accepted"));
    let r = command_outcome(CommandKind::RemoteStop, "Rejected".to_string());
    assert_eq!(r.message.as_deref(), Some("Remote stop rejected by charge point"));
    let r = command_outcome(CommandKind::RemoteStart, "NotAccepted".to_string());
    // containment, not equality, decides
    assert_eq!(r.message.as_deref(), Some("Remote start accepted"));
    let r = command_outcome(CommandKind::UnlockConnector, "Unlocked".to_string());
    assert_eq!(r.message.as_deref(), Some("Connector unlocked"));
    let r = command_outcome(CommandKind::UnlockConnector, "UnlockFailed".to_string());
    assert_eq!(r.message.as_deref(), Some("Unlock failed"));
    let r = command_outcome(CommandKind::ChangeAvailability, "Scheduled".to_string());
    assert_eq!(r.message.as_deref(), Some("Availability change scheduled"));
    let r = command_outcome(CommandKind::ChangeAvailability, "Rejected".to_string());
    assert_eq!(r.message.as_deref(), Some("Availability change rejected"));
    let r = command_outcome(CommandKind::TriggerMessage, "NotImplemented".to_string());
    assert_eq!(r.message.as_deref(), Some("Not implemented by charge point"));
    let r = command_outcome(CommandKind::SendLocalList, "VersionMismatch".to_string());
    assert_eq!(r.message.as_deref(), Some("Local list update failed or not supported"));
    let r = command_outcome(CommandKind::ClearChargingProfile, "Unknown".to_string());
    assert_eq!(r.message.as_deref(), Some("No matching charging profiles found"));
    let r = command_outcome(CommandKind::SetChargingProfile, "Accepted".to_string());
    assert_eq!(r.message.as_deref(), Some("Charging profile set"));
    let r = command_outcome(CommandKind::Reset, "Accepted".to_string());
    assert_eq!(r.message.as_deref(), Some("Reset accepted"));
}

#[test]
fn request_texts_map_to_parameters() {
    assert_eq!(parse_reset_kind("HARD"), ResetKind::Hard);
    assert_eq!(parse_reset_kind("soft"), ResetKind::Soft);
    assert_eq!(parse_reset_kind("other"), ResetKind::Soft);
    assert_eq!(parse_availability("Inoperative"), Availability::Inoperative);
    assert_eq!(parse_availability("operative"), Availability::Operative);
    assert_eq!(parse_availability("x"), Availability::Operative);
    assert_eq!(parse_trigger_type("Heartbeat"), Some(TriggerType::Heartbeat));
    assert_eq!(parse_trigger_type("METERVALUES"), Some(TriggerType::MeterValues));
    assert_eq!(parse_trigger_type("bootnotification"), Some(TriggerType::BootNotification));
    assert_eq!(parse_trigger_type("nothing"), None);
    assert!(is_valid_update_type("Full"));
    assert!(is_valid_update_type("DIFFERENTIAL"));
    assert!(!is_valid_update_type("Partial"));
}

#[test]
fn configuration_key_lists() {
    assert_eq!(configuration_keys(None), None);
    assert_eq!(
        configuration_keys(Some(" HeartbeatInterval, MeterValueSampleInterval ")),
        Some(vec!["HeartbeatInterval".to_string(), "MeterValueSampleInterval".to_string()])
    );
    assert_eq!(configuration_keys(Some("")), Some(vec!["".to_string()]));
}

#[test]
fn simple_field_rules() {
    assert!(RemoteStopRequest { transaction_id: 1 }.validate().is_empty());
    assert_eq!(
        fields(&RemoteStopRequest { transaction_id: 0 }.validate()),
        vec![("transaction_id".to_string(), "transaction_id must be positive".to_string())]
    );
    assert_eq!(
        fields(&ResetRequest { reset_type: String::new() }.validate()),
        vec![("type".to_string(), "reset type is required".to_string())]
    );
    assert!(UnlockConnectorRequest { connector_id: 1 }.validate().is_empty());
    assert_eq!(UnlockConnectorRequest { connector_id: 0 }.validate().len(), 1);
    assert_eq!(
        ChangeAvailabilityRequest { connector_id: 0, availability_type: String::new() }
            .validate()
            .len(),
        1
    );
    assert_eq!(
        TriggerMessageRequest { message: String::new(), connector_id: None }.validate().len(),
        1
    );
    assert!(ChangeConfigurationRequest { key: "k".to_string(), value: String::new() }
        .validate()
        .is_empty());
    assert_eq!(
        ChangeConfigurationRequest { key: "k".repeat(501), value: String::new() }.validate().len(),
        1
    );
    assert_eq!(
        DataTransferRequest { vendor_id: "v".repeat(256), message_id: None, data: None }
            .validate()
            .len(),
        1
    );
}

#[test]
fn nested_variable_rules() {
    let empty = GetVariablesRequest { variables: vec![] };
    let out = empty.validate();
    assert!(!out.is_valid());
    assert_eq!(
        rejection_message(&out.field_errors),
        "variables: at least one variable selector is required"
    );
    let bad = GetVariablesRequest {
        variables: vec![
            VariableSelector { component: "EVSE".to_string(), variable: "Power".to_string() },
            VariableSelector { component: String::new(), variable: "Power".to_string() },
        ],
    };
    let out = bad.validate();
    assert!(out.field_errors.is_empty());
    assert!(!out.nested_ok);
    assert!(!out.is_valid());
    assert_eq!(rejection_message(&out.field_errors), "Validation failed");
    let good = SetVariablesRequest {
        variables: vec![VariableAssignment {
            component: "OCPPCommCtrlr".to_string(),
            variable: "HeartbeatInterval".to_string(),
            value: String::new(),
        }],
    };
    assert!(good.validate().is_valid());
    let bad_set = SetVariablesRequest {
        variables: vec![VariableAssignment {
            component: "C".to_string(),
            variable: String::new(),
            value: "1".to_string(),
        }],
    };
    assert!(!bad_set.validate().is_valid());
}

fn entry(tag: &str) -> AuthorizationEntryDto {
    AuthorizationEntryDto { id_tag: tag.to_string(), status: None, expiry_date: None, parent_id_tag: None }
}

#[test]
fn local_list_rules() {
    let ok = SendLocalListRequest {
        list_version: 1,
        update_type: "Full".to_string(),
        local_authorization_list: None,
    };
    assert!(ok.validate().is_valid());
    let bad_entry = SendLocalListRequest {
        list_version: 1,
        update_type: "Full".to_string(),
        local_authorization_list: Some(vec![entry("TAG1"), entry(&"x".repeat(37))]),
    };
    assert!(!bad_entry.validate().is_valid());
    let no_type = SendLocalListRequest {
        list_version: 1,
        update_type: String::new(),
        local_authorization_list: Some(vec![entry("TAG1")]),
    };
    let out = no_type.validate();
    assert!(out.nested_ok);
    assert_eq!(
        rejection_message(&out.field_errors),
        "update_type: update_type is required (Full or Differential)"
    );
    assert_eq!(entry("").validate().len(), 1);
}

#[test]
fn profile_listing_defaults_to_active() {
    assert!(ChargingProfileQueryParams { active_only: None }.active_only());
    assert!(!ChargingProfileQueryParams { active_only: Some(false) }.active_only());
}
