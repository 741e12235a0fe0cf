use texnouz_csms::auth::{
    api_key_user, extract_token, is_api_key_format, route_authorization, ApiKeyRecord, AuthError,
    AuthMethod, AuthRoute, AuthenticatedUser, TokenClaims,
};

#[test]
fn api_key_format() {
    assert!(is_api_key_format("txocpp_abc"));
    assert!(is_api_key_format("txocpp_"));
    assert!(!is_api_key_format("Bearer txocpp_abc"));
    assert!(!is_api_key_format("TXOCPP_abc"));
}

#[test]
fn bearer_token_extraction() {
    assert_eq!(extract_token("Bearer abc.def"), Some("abc.def"));
    assert_eq!(extract_token("Bearer "), Some(""));
    assert_eq!(extract_token("bearer abc"), None);
    assert_eq!(extract_token("Basic xyz"), None);
}

#[test]
fn routing_of_authorization_headers() {
    assert!(matches!(route_authorization(None), AuthRoute::Missing));
    match route_authorization(Some("txocpp_k1")) {
        AuthRoute::ApiKey(k) => assert_eq!(k, "txocpp_k1"),
        _ => panic!("expected an API key"),
    }
    match route_authorization(Some("Bearer tok")) {
        AuthRoute::Bearer(t) => assert_eq!(t, "tok"),
        _ => panic!("expected a bearer token"),
    }
    assert!(matches!(route_authorization(Some("Token x")), AuthRoute::Malformed));
}

#[test]
fn auth_error_answers() {
    let all = [
        (AuthError::MissingToken, 401, "Missing authentication token"),
        (AuthError::InvalidToken, 401, "Invalid authentication token"),
        (AuthError::ExpiredToken, 401, "Token has expired"),
        (AuthError::InsufficientPermissions, 403, "Insufficient permissions"),
        (AuthError::InvalidCredentials, 401, "Invalid credentials"),
        (AuthError::UserNotFound, 404, "User not found"),
        (AuthError::InvalidApiKey, 401, "Invalid API key"),
    ];
    for (e, code, msg) in all {
        assert_eq!(e.status_code(), code);
        assert_eq!(e.message(), msg);
    }
}

#[test]
fn user_from_claims() {
    let u = AuthenticatedUser::from_claims(TokenClaims {
        sub: "u1".to_string(),
        username: "alice".to_string(),
        role: "admin".to_string(),
    });
    assert_eq!(u.user_id, "u1");
    assert_eq!(u.username, "alice");
    assert!(u.is_admin());
    assert!(matches!(u.auth_method, AuthMethod::Jwt));
    let v = AuthenticatedUser::from_claims(TokenClaims {
        sub: "u2".to_string(),
        username: "bob".to_string(),
        role: "Admin".to_string(),
    });
    assert!(!v.is_admin());
}

fn key(scopes: &str, user: Option<&str>, expires_at: Option<i64>) -> ApiKeyRecord {
    ApiKeyRecord {
        id: "k-1".to_string(),
        name: "Integration".to_string(),
        user_id: user.map(String::from),
        scopes: scopes.to_string(),
        expires_at,
    }
}

#[test]
fn api_key_roles_from_scopes() {
    let u = api_key_user(key(r#"["charge_points:read","admin:all"]"#, Some("owner"), None), 0).unwrap();
    assert_eq!(u.role, "admin");
    assert_eq!(u.user_id, "owner");
    assert_eq!(u.username, "Integration");
    match u.auth_method {
        AuthMethod::ApiKey { key_id } => assert_eq!(key_id, "k-1"),
        _ => panic!("expected API key authentication"),
    }
    let u = api_key_user(key(r#"["transactions:read"]"#, None, None), 0).unwrap();
    assert_eq!(u.role, "operator");
    assert_eq!(u.user_id, "api-key-user");
    // scopes that do not parse grant no admin role
    let u = api_key_user(key("admin", None, None), 0).unwrap();
    assert_eq!(u.role, "operator");
}

#[test]
fn api_key_expiry() {
    assert!(api_key_user(key("[]", None, Some(100)), 101).is_none());
    assert!(api_key_user(key("[]", None, Some(100)), 100).is_some());
    assert!(api_key_user(key("[]", None, None), i64::MAX).is_some());
}
