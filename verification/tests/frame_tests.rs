use texnouz_csms::frame::{OcppFrame, OcppFrameError};

fn empty_object() -> serde_json::Value {
    serde_json::Value::Object(serde_json::Map::new())
}

#[test]
fn parse_call() {
    let text = r#"[2,"abc123","BootNotification",{"chargePointVendor":"Vendor","chargePointModel":"Model"}]"#;
    let frame = OcppFrame::parse(text).unwrap();
    match frame {
        OcppFrame::Call { unique_id, action, payload } => {
            assert_eq!(unique_id, "abc123");
            assert_eq!(action, "BootNotification");
            assert_eq!(payload["chargePointVendor"], "Vendor");
        }
        _ => panic!("Expected Call frame"),
    }
}

#[test]
fn parse_call_result() {
    let text = r#"[3,"abc123",{"status":"Accepted","currentTime":"2024-01-01T00:00:00Z","interval":300}]"#;
    let frame = OcppFrame::parse(text).unwrap();
    match frame {
        OcppFrame::CallResult { unique_id, payload } => {
            assert_eq!(unique_id, "abc123");
            assert_eq!(payload["status"], "Accepted");
        }
        _ => panic!("Expected CallResult frame"),
    }
}

#[test]
fn parse_call_error() {
    let text = r#"[4,"abc123","NotImplemented","Action not supported",{}]"#;
    let frame = OcppFrame::parse(text).unwrap();
    match frame {
        OcppFrame::CallError { unique_id, error_code, error_description, .. } => {
            assert_eq!(unique_id, "abc123");
            assert_eq!(error_code, "NotImplemented");
            assert_eq!(error_description, "Action not supported");
        }
        _ => panic!("Expected CallError frame"),
    }
}

#[test]
fn roundtrip_call() {
    let frame = OcppFrame::Call {
        unique_id: "id1".into(),
        action: "Heartbeat".into(),
        payload: empty_object(),
    };
    let json = frame.serialize();
    let parsed = OcppFrame::parse(&json).unwrap();
    assert!(parsed.is_call());
    assert_eq!(parsed.unique_id(), "id1");
}

#[test]
fn roundtrip_call_result() {
    let mut payload = serde_json::Map::new();
    payload.insert(
        "currentTime".to_string(),
        serde_json::Value::String("2024-01-01T00:00:00Z".to_string()),
    );
    let frame =
        OcppFrame::CallResult { unique_id: "id2".into(), payload: serde_json::Value::Object(payload) };
    let json = frame.serialize();
    let parsed = OcppFrame::parse(&json).unwrap();
    assert!(parsed.is_call_result());
    assert_eq!(parsed.unique_id(), "id2");
}

#[test]
fn roundtrip_call_error() {
    let frame = OcppFrame::error_response("id3", "GenericError", "Something went wrong");
    let json = frame.serialize();
    let parsed = OcppFrame::parse(&json).unwrap();
    assert!(parsed.is_call_error());
    assert_eq!(parsed.unique_id(), "id3");
}

#[test]
fn serialize_writes_compact_arrays() {
    let frame = OcppFrame::Call {
        unique_id: "u1".into(),
        action: "Heartbeat".into(),
        payload: empty_object(),
    };
    assert_eq!(frame.serialize(), r#"[2,"u1","Heartbeat",{}]"#);
    let err = OcppFrame::error_response("u2", "GenericError", "bad");
    assert_eq!(err.serialize(), r#"[4,"u2","GenericError","bad",{}]"#);
}

#[test]
fn roundtrip_keeps_text_fields() {
    let frame = OcppFrame::error_response("x\"y", "Code", "line\nbreak");
    let parsed = OcppFrame::parse(&frame.serialize()).unwrap();
    match parsed {
        OcppFrame::CallError { unique_id, error_code, error_description, error_details } => {
            assert_eq!(unique_id, "x\"y");
            assert_eq!(error_code, "Code");
            assert_eq!(error_description, "line\nbreak");
            assert_eq!(error_details, empty_object());
        }
        _ => panic!("Expected CallError frame"),
    }
}

#[test]
fn parse_rejects_invalid_json() {
    let err = OcppFrame::parse("not json").unwrap_err();
    assert!(matches!(err, OcppFrameError::InvalidJson(_)));
    assert!(err.message().starts_with("Invalid JSON: "));
    let err = OcppFrame::parse(r#"{"a":1}"#).unwrap_err();
    assert!(matches!(err, OcppFrameError::InvalidJson(_)));
}

#[test]
fn parse_rejects_empty_array() {
    let err = OcppFrame::parse("[]").unwrap_err();
    assert!(matches!(err, OcppFrameError::EmptyArray));
    assert_eq!(err.message(), "Empty OCPP message array");
}

#[test]
fn parse_rejects_non_numeric_type() {
    let err = OcppFrame::parse(r#"["2","a","b",{}]"#).unwrap_err();
    assert!(matches!(err, OcppFrameError::InvalidMessageType));
    assert_eq!(err.message(), "Message type is not a number");
    let err = OcppFrame::parse(r#"[-2,"a","b",{}]"#).unwrap_err();
    assert!(matches!(err, OcppFrameError::InvalidMessageType));
}

#[test]
fn parse_rejects_unknown_type() {
    let err = OcppFrame::parse(r#"[7,"a"]"#).unwrap_err();
    assert!(matches!(err, OcppFrameError::UnknownMessageType(7)));
    assert_eq!(err.message(), "Unknown message type: 7");
}

#[test]
fn parse_rejects_missing_fields() {
    let err = OcppFrame::parse(r#"[2,"a","Heartbeat"]"#).unwrap_err();
    assert!(matches!(err, OcppFrameError::MissingFields { expected: 4, got: 3 }));
    assert_eq!(err.message(), "Expected at least 4 fields, got 3");
    let err = OcppFrame::parse(r#"[3,"a"]"#).unwrap_err();
    assert!(matches!(err, OcppFrameError::MissingFields { expected: 3, got: 2 }));
    let err = OcppFrame::parse(r#"[4,"a","b"]"#).unwrap_err();
    assert!(matches!(err, OcppFrameError::MissingFields { expected: 4, got: 3 }));
}

#[test]
fn parse_rejects_non_text_fields() {
    let err = OcppFrame::parse(r#"[2,5,"Heartbeat",{}]"#).unwrap_err();
    assert!(matches!(err, OcppFrameError::FieldTypeMismatch("uniqueId must be a string")));
    assert_eq!(err.message(), "Field type mismatch: uniqueId must be a string");
    let err = OcppFrame::parse(r#"[2,"a",5,{}]"#).unwrap_err();
    assert!(matches!(err, OcppFrameError::FieldTypeMismatch("action must be a string")));
}

#[test]
fn call_error_fills_defaults() {
    let frame = OcppFrame::parse(r#"[4,"a",17,null]"#).unwrap();
    match frame {
        OcppFrame::CallError { unique_id, error_code, error_description, error_details } => {
            assert_eq!(unique_id, "a");
            assert_eq!(error_code, "InternalError");
            assert_eq!(error_description, "");
            assert_eq!(error_details, empty_object());
        }
        _ => panic!("Expected CallError frame"),
    }
}

#[test]
fn extra_elements_are_ignored() {
    let frame = OcppFrame::parse(r#"[3,"r",{"k":1},"extra"]"#).unwrap();
    assert!(frame.is_call_result());
    assert!(!frame.is_call());
    assert!(!frame.is_call_error());
    assert_eq!(frame.unique_id(), "r");
}

#[test]
fn payload_beyond_parser_nesting_does_not_read_back() {
    let mut payload = serde_json::Value::Null;
    for _ in 0..200 {
        payload = serde_json::Value::Array(vec![payload]);
    }
    let frame = OcppFrame::CallResult { unique_id: "deep".into(), payload };
    let err = OcppFrame::parse(&frame.serialize()).unwrap_err();
    assert!(matches!(err, OcppFrameError::InvalidJson(_)));
}

#[test]
fn roundtrip_keeps_integral_payload() {
    let mut inner = serde_json::Map::new();
    inner.insert("connectorId".to_string(), serde_json::Value::from(2));
    inner.insert("idTag".to_string(), serde_json::Value::from("TAG.e"));
    let payload = serde_json::Value::Object(inner);
    let frame = OcppFrame::Call {
        unique_id: "u".into(),
        action: "StartTransaction".into(),
        payload: payload.clone(),
    };
    match OcppFrame::parse(&frame.serialize()).unwrap() {
        OcppFrame::Call { payload: back, .. } => {
            assert_eq!(back.to_string(), payload.to_string());
            assert_eq!(back["connectorId"], 2);
        }
        _ => panic!("Expected Call frame"),
    }
}

fn nested(depth: usize) -> serde_json::Value {
    let mut v = serde_json::Value::Bool(true);
    for _ in 0..depth {
        v = serde_json::Value::Array(vec![v, serde_json::Value::Bool(false)]);
    }
    v
}

#[test]
fn payload_nesting_limit_is_exact() {
    let ok = OcppFrame::CallResult { unique_id: "a".into(), payload: nested(126) };
    match OcppFrame::parse(&ok.serialize()).unwrap() {
        OcppFrame::CallResult { payload, .. } => assert_eq!(payload, nested(126)),
        _ => panic!("Expected CallResult frame"),
    }
    let too_deep = OcppFrame::CallResult { unique_id: "a".into(), payload: nested(127) };
    assert!(matches!(
        OcppFrame::parse(&too_deep.serialize()).unwrap_err(),
        OcppFrameError::InvalidJson(_)
    ));
}
