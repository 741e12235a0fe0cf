use texnouz_csms::accounts::{
    ChangePasswordRequest, CreateApiKeyRequest, LoginRequest, RegisterRequest,
};
use texnouz_csms::errors::DomainError;
use texnouz_csms::monitoring::health_report;
use texnouz_csms::request_id::{assign_request_id, REQUEST_ID_HEADER};
use texnouz_csms::retry::RetryState;
use texnouz_csms::validation::{rejection_message, BodyRejection, FieldError};

#[test]
fn health_ok_and_degraded() {
    let (code, h) = health_report(Some(3), "0.1.0", 42, 5);
    assert_eq!(code, 200);
    assert_eq!(h.status, "ok");
    assert_eq!(h.database.status, "ok");
    assert_eq!(h.database.latency_ms, Some(3));
    assert_eq!((h.version.as_str(), h.uptime_seconds, h.connected_charge_points), ("0.1.0", 42, 5));
    let (code, h) = health_report(None, "0.1.0", 0, 0);
    assert_eq!(code, 503);
    assert_eq!(h.status, "degraded");
    assert_eq!(h.database.status, "error");
    assert!(h.database.latency_ms.is_none());
}

#[test]
fn login_and_password_rules() {
    assert!(LoginRequest { username: "a".to_string(), password: "p".to_string() }.validate().is_empty());
    let errs = LoginRequest { username: String::new(), password: String::new() }.validate();
    assert_eq!(rejection_message(&errs), "username: username is required; password: password is required");
    let errs = ChangePasswordRequest { current_password: "x".to_string(), new_password: "12345".to_string() }
        .validate();
    assert_eq!(rejection_message(&errs), "new_password: new password must be 6–128 characters");
}

#[test]
fn registration_rules() {
    let ok = RegisterRequest {
        username: "alice".to_string(),
        email: "alice@example.com".to_string(),
        password: "secret1".to_string(),
    };
    assert!(ok.validate().is_empty());
    let bad = RegisterRequest {
        username: "al".to_string(),
        email: "not-an-email".to_string(),
        password: "123".to_string(),
    };
    let errs = bad.validate();
    let got: Vec<&str> = errs.iter().map(|e| e.field.as_str()).collect();
    assert_eq!(got, vec!["username", "email", "password"]);
    assert_eq!(errs[1].message, "invalid email format");
    let no_domain = RegisterRequest {
        username: "alice".to_string(),
        email: "alice@".to_string(),
        password: "secret1".to_string(),
    };
    assert_eq!(no_domain.validate().len(), 1);
}

#[test]
fn api_key_request_rules() {
    let ok = CreateApiKeyRequest { name: "n".to_string(), scopes: vec!["a".to_string()], expires_in_days: None };
    assert!(ok.validate().is_empty());
    let bad = CreateApiKeyRequest { name: String::new(), scopes: vec![], expires_in_days: Some(3) };
    assert_eq!(
        rejection_message(&bad.validate()),
        "name: name is required; scopes: at least one scope is required"
    );
}

#[test]
fn rejection_without_field_errors() {
    assert_eq!(rejection_message(&vec![]), "Validation failed");
}

#[test]
fn domain_errors() {
    let e = DomainError::Validation("Database error: timeout".to_string());
    assert!(e.is_transient());
    assert_eq!(e.message(), "Validation: Database error: timeout");
    assert_eq!(e.user_creation_status(), 400);
    assert!(!DomainError::Validation("bad".to_string()).is_transient());
    assert!(!DomainError::CommandTimeout("Database error:".to_string()).is_transient());
    let nf = DomainError::NotFound { entity: "User", field: "id", value: "7".to_string() };
    assert_eq!(nf.message(), "Not found: User with id=7");
    assert_eq!(nf.user_deletion_status(), 404);
    assert_eq!(nf.user_creation_status(), 500);
    assert_eq!(DomainError::Conflict("x".to_string()).user_creation_status(), 409);
    assert_eq!(DomainError::Conflict("x".to_string()).user_deletion_status(), 500);
    assert_eq!(DomainError::ChargePointOffline("CP".to_string()).message(), "Charge point CP is not connected");
}

#[test]
fn request_ids() {
    assert_eq!(REQUEST_ID_HEADER, "x-request-id");
    assert_eq!(assign_request_id(Some("abc".to_string())).0, "abc");
    let fresh = assign_request_id(None).0;
    assert_eq!(fresh.len(), 36);
    assert_eq!(fresh.matches('-').count(), 4);
    assert_ne!(fresh, assign_request_id(None).0);
}

#[test]
fn retries_stop_at_the_limit() {
    let s = RetryState::first(3);
    assert_eq!(s.attempt(), 1);
    let s = s.after_failure(true).unwrap();
    assert_eq!(s.attempt(), 2);
    let s = s.after_failure(true).unwrap();
    assert_eq!(s.attempt(), 3);
    assert!(s.after_failure(true).is_none());
    assert!(RetryState::first(3).after_failure(false).is_none());
    assert!(RetryState::first(1).after_failure(true).is_none());
}

#[test]
fn body_rejections() {
    let bad_json = BodyRejection::InvalidJson("expected value at line 1 column 1".to_string());
    assert_eq!(bad_json.status_code(), 400);
    assert_eq!(bad_json.message(), "Invalid JSON: expected value at line 1 column 1");
    let invalid = BodyRejection::Invalid(vec![
        FieldError { field: "name".to_string(), message: "too long".to_string() },
        FieldError { field: "age".to_string(), message: "range".to_string() },
    ]);
    assert_eq!(invalid.status_code(), 422);
    assert_eq!(invalid.message(), "name: too long; age: range");
    assert_eq!(BodyRejection::Invalid(vec![]).message(), "Validation failed");
}
