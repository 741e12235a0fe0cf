use texnouz_csms::auth::{
    authenticate, optional_user, route_authorization, AuthError, AuthMethod, AuthRoute,
    AuthenticatedUser, TokenClaims, VerifiedToken,
};
use texnouz_csms::charging_profiles::profile_after_reply;
use texnouz_csms::commands::require_connected;
use texnouz_csms::handshake::{whitelist_decision, ChargePointLookup, ConnectionAdmission};
use texnouz_csms::reservations::{
    cancellation_after_reply, reservation_after_reply, CreateReservationRequest,
};

#[test]
fn commands_need_a_connection() {
    assert!(require_connected("CP1", true).is_ok());
    assert_eq!(
        require_connected("CP1", false),
        Err((404, "Charge point 'CP1' is not connected".to_string()))
    );
}

#[test]
fn whitelist_closes_unknown_and_failed_lookups() {
    assert!(matches!(whitelist_decision(ChargePointLookup::Known), ConnectionAdmission::Admit));
    match whitelist_decision(ChargePointLookup::Unknown) {
        ConnectionAdmission::Close { code, reason } => {
            assert_eq!(code, 1008);
            assert_eq!(reason, "Unknown charge point ID");
        }
        _ => panic!("expected a close"),
    }
    match whitelist_decision(ChargePointLookup::Failed) {
        ConnectionAdmission::Close { code, reason } => {
            assert_eq!(code, 1011);
            assert_eq!(reason, "Internal server error during authentication");
        }
        _ => panic!("expected a close"),
    }
}

fn request() -> CreateReservationRequest {
    CreateReservationRequest {
        charge_point_id: "CP1".to_string(),
        connector_id: 2,
        id_tag: "TAG".to_string(),
        parent_id_tag: Some("P".to_string()),
        expiry_date: "2030-01-01T00:00:00Z".to_string(),
    }
}

#[test]
fn reservations_are_stored_only_when_accepted() {
    let (answer, record) = reservation_after_reply(&request(), 7, (1_893_456_000, 0), "Accepted");
    assert_eq!(answer.message.as_deref(), Some("Reservation created successfully"));
    let record = record.unwrap();
    assert_eq!((record.id, record.connector_id, record.expiry), (7, 2, (1_893_456_000, 0)));
    assert_eq!(record.parent_id_tag.as_deref(), Some("P"));
    let (answer, record) = reservation_after_reply(&request(), 7, (1_893_456_000, 0), "Occupied");
    assert_eq!(answer.status, "Occupied");
    assert!(record.is_none());
}

#[test]
fn cancellations_are_stored_only_when_accepted() {
    assert_eq!(cancellation_after_reply(3, None).1, Some(3));
    assert_eq!(cancellation_after_reply(3, Some("Accepted")).1, Some(3));
    let (answer, cancel) = cancellation_after_reply(3, Some("Rejected"));
    assert_eq!(answer.message.as_deref(), Some("Charge point responded: Rejected"));
    assert_eq!(cancel, None);
}

#[test]
fn profiles_are_stored_only_when_accepted() {
    let mut m = serde_json::Map::new();
    m.insert("chargingProfileId".to_string(), serde_json::Value::from(4));
    let profile = serde_json::Value::Object(m);
    let (answer, record) = profile_after_reply("CP1", 1, &profile, "Accepted".to_string(), 5);
    assert_eq!(answer.message.as_deref(), Some("Charging profile set"));
    assert_eq!(record.unwrap().profile_id, 4);
    let (answer, record) = profile_after_reply("CP1", 1, &profile, "Rejected".to_string(), 5);
    assert_eq!(answer.message.as_deref(), Some("Charging profile rejected by station"));
    assert!(record.is_none());
}

fn claims() -> TokenClaims {
    TokenClaims { sub: "u1".to_string(), username: "alice".to_string(), role: "admin".to_string() }
}

fn key_user() -> AuthenticatedUser {
    AuthenticatedUser {
        user_id: "owner".to_string(),
        username: "key".to_string(),
        role: "operator".to_string(),
        auth_method: AuthMethod::ApiKey { key_id: "k".to_string() },
    }
}

#[test]
fn authentication_chain() {
    assert_eq!(authenticate(route_authorization(None), None, None).unwrap_err(), AuthError::MissingToken);
    assert_eq!(
        authenticate(route_authorization(Some("Token x")), None, None).unwrap_err(),
        AuthError::InvalidToken
    );
    assert_eq!(
        authenticate(route_authorization(Some("txocpp_k")), None, None).unwrap_err(),
        AuthError::InvalidApiKey
    );
    let u = authenticate(route_authorization(Some("txocpp_k")), Some(key_user()), None).unwrap();
    assert_eq!(u.user_id, "owner");
    assert_eq!(
        authenticate(route_authorization(Some("Bearer t")), None, None).unwrap_err(),
        AuthError::InvalidToken
    );
    let expired = VerifiedToken { claims: claims(), expired: true };
    assert_eq!(
        authenticate(AuthRoute::Bearer("t".to_string()), None, Some(expired)).unwrap_err(),
        AuthError::ExpiredToken
    );
    let fresh = VerifiedToken { claims: claims(), expired: false };
    let u = authenticate(AuthRoute::Bearer("t".to_string()), None, Some(fresh)).unwrap();
    assert_eq!((u.user_id.as_str(), u.role.as_str()), ("u1", "admin"));
    assert!(matches!(u.auth_method, AuthMethod::Jwt));
}

#[test]
fn optional_authentication() {
    assert!(optional_user(AuthRoute::Missing, None, None).is_none());
    assert!(optional_user(AuthRoute::Bearer("t".to_string()), None, Some(VerifiedToken { claims: claims(), expired: true })).is_none());
    assert!(optional_user(AuthRoute::ApiKey("txocpp_k".to_string()), Some(key_user()), None).is_some());
}
