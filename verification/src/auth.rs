//! Authentication of API requests: bearer tokens and API keys.
use vstd::prelude::*;

use crate::text::{contains_text, has_prefix, text_contains, text_eq, text_has_prefix};

verus! {

/// Whether a credential looks like an API key: it starts with `txocpp_`.
pub fn is_api_key_format(s: &str) -> (r: bool)
    ensures
        r == has_prefix(s@, "txocpp_"@),
{
    text_has_prefix(s, "txocpp_")
}

/// The token of a `Bearer` authorization header.
pub open spec fn bearer_token(header: Seq<char>) -> Option<Seq<char>> {
    if has_prefix(header, "Bearer "@) {
        Some(header.skip(7))
    } else {
        None
    }
}

/// The token after `Bearer ` in an authorization header.
pub fn extract_token(auth_header: &str) -> (r: Option<&str>)
    ensures
        match r {
            Some(t) => bearer_token(auth_header@) == Some(t@),
            None => bearer_token(auth_header@) is None,
        },
{
    proof {
        reveal_strlit("Bearer ");
    }
    if text_has_prefix(auth_header, "Bearer ") {
        let n = auth_header.unicode_len();
        let t = auth_header.substring_char(7, n);
        assert(t@ =~= auth_header@.skip(7));
        Some(t)
    } else {
        None
    }
}

/// Authentication error types.
#[derive(Debug, Clone, Copy, PartialEq, Eq, Structural)]
pub enum AuthError {
    MissingToken,
    InvalidToken,
    ExpiredToken,
    InsufficientPermissions,
    InvalidCredentials,
    UserNotFound,
    InvalidApiKey,
}

/// The HTTP status an authentication error is answered with.
pub open spec fn auth_status_of(e: AuthError) -> u16 {
    match e {
        AuthError::InsufficientPermissions => 403,
        AuthError::UserNotFound => 404,
        _ => 401,
    }
}

/// The message an authentication error is answered with.
pub open spec fn auth_message_of(e: AuthError) -> Seq<char> {
    match e {
        AuthError::MissingToken => "Missing authentication token"@,
        AuthError::InvalidToken => "Invalid authentication token"@,
        AuthError::ExpiredToken => "Token has expired"@,
        AuthError::InsufficientPermissions => "Insufficient permissions"@,
        AuthError::InvalidCredentials => "Invalid credentials"@,
        AuthError::UserNotFound => "User not found"@,
        AuthError::InvalidApiKey => "Invalid API key"@,
    }
}

impl AuthError {
    /// The HTTP status of the error response.
    pub fn status_code(&self) -> (r: u16)
        ensures
            r == auth_status_of(*self),
    {
        match self {
            AuthError::InsufficientPermissions => 403,
            AuthError::UserNotFound => 404,
            _ => 401,
        }
    }

    /// The message of the error response.
    pub fn message(&self) -> (r: &'static str)
        ensures
            r@ == auth_message_of(*self),
    {
        match self {
            AuthError::MissingToken => "Missing authentication token",
            AuthError::InvalidToken => "Invalid authentication token",
            AuthError::ExpiredToken => "Token has expired",
            AuthError::InsufficientPermissions => "Insufficient permissions",
            AuthError::InvalidCredentials => "Invalid credentials",
            AuthError::UserNotFound => "User not found",
            AuthError::InvalidApiKey => "Invalid API key",
        }
    }
}

/// How the user was authenticated.
#[derive(Clone, Debug)]
pub enum AuthMethod {
    Jwt,
    ApiKey { key_id: String },
}

/// The claims of a verified bearer token that identify its user.
pub struct TokenClaims {
    pub sub: String,
    pub username: String,
    pub role: String,
}

/// Authenticated user information (either from a token or an API key).
#[derive(Clone, Debug)]
pub struct AuthenticatedUser {
    pub user_id: String,
    pub username: String,
    pub role: String,
    pub auth_method: AuthMethod,
}

impl AuthenticatedUser {
    /// The user a verified token identifies.
    pub fn from_claims(claims: TokenClaims) -> (r: Self)
        ensures
            r.user_id@ == claims.sub@,
            r.username@ == claims.username@,
            r.role@ == claims.role@,
            r.auth_method is Jwt,
    {
        AuthenticatedUser {
            user_id: claims.sub,
            username: claims.username,
            role: claims.role,
            auth_method: AuthMethod::Jwt,
        }
    }

    /// Whether the user has the `admin` role.
    pub fn is_admin(&self) -> (r: bool)
        ensures
            r == (self.role@ == "admin"@),
    {
        text_eq(self.role.as_str(), "admin")
    }
}

/// Which way a request's `Authorization` header is to be checked.
pub enum AuthRoute {
    /// No header: rejected with `MissingToken`.
    Missing,
    /// An API key, to be looked up.
    ApiKey(String),
    /// A bearer token, to be verified.
    Bearer(String),
    /// Neither an API key nor a bearer token: rejected with `InvalidToken`.
    Malformed,
}

/// Route an `Authorization` header: API keys first, then bearer tokens.
pub fn route_authorization(header: Option<&str>) -> (r: AuthRoute)
    ensures
        match header {
            None => r is Missing,
            Some(h) => if has_prefix(h@, "txocpp_"@) {
                r matches AuthRoute::ApiKey(k) && k@ == h@
            } else {
                match bearer_token(h@) {
                    Some(t) => r matches AuthRoute::Bearer(b) && b@ == t,
                    None => r is Malformed,
                }
            },
        },
{
    match header {
        None => AuthRoute::Missing,
        Some(h) => {
            if is_api_key_format(h) {
                AuthRoute::ApiKey(h.to_owned())
            } else {
                match extract_token(h) {
                    Some(t) => AuthRoute::Bearer(t.to_owned()),
                    None => AuthRoute::Malformed,
                }
            }
        },
    }
}

/// What authentication reads of a stored, active API key.
pub struct ApiKeyRecord {
    pub id: String,
    pub name: String,
    pub user_id: Option<String>,
    /// The scopes, as a JSON array of strings.
    pub scopes: String,
    /// Expiry, nanoseconds since the Unix epoch.
    pub expires_at: Option<i64>,
}

/// The strings of `text` read as a JSON array of strings with `serde_json`,
/// or `None` when it is not one.
pub uninterp spec fn json_string_list(text: Seq<char>) -> Option<Seq<Seq<char>>>;

/// `serde_json::from_str::<Vec<String>>`; `None` on failure. The result is named.
#[verifier::external_body]
fn decode_string_list(text: &str) -> (r: Option<Vec<String>>)
    ensures
        match r {
            Some(v) => json_string_list(text@) == Some(v@.map_values(|s: String| s@)),
            None => json_string_list(text@) is None,
        },
{
    serde_json::from_str::<Vec<String>>(text).ok()
}

/// The scopes of a key: its JSON list, or none when it does not parse.
pub open spec fn scopes_of(text: Seq<char>) -> Seq<Seq<char>> {
    match json_string_list(text) {
        Some(v) => v,
        None => Seq::empty(),
    }
}

/// The role an API key grants: `admin` when a scope mentions `admin`, else `operator`.
pub open spec fn role_for_scopes(scopes: Seq<Seq<char>>) -> Seq<char> {
    if exists|i: int| 0 <= i < scopes.len() && contains_text(#[trigger] scopes[i], "admin"@) {
        "admin"@
    } else {
        "operator"@
    }
}

/// Whether a key with this expiry has expired at `now`.
pub open spec fn key_expired(expires_at: Option<i64>, now: i64) -> bool {
    expires_at matches Some(e) && now > e
}

/// The user an API key authenticates as.
pub open spec fn api_key_user_ok(u: AuthenticatedUser, key: ApiKeyRecord) -> bool {
    &&& u.user_id@ == match key.user_id {
        Some(id) => id@,
        None => "api-key-user"@,
    }
    &&& u.username@ == key.name@
    &&& u.role@ == role_for_scopes(scopes_of(key.scopes@))
    &&& (u.auth_method matches AuthMethod::ApiKey { key_id } && key_id@ == key.id@)
}

/// The user an API key authenticates at time `now`: none once the key has
/// expired; otherwise its user (or `api-key-user`), its name, and the role
/// its scopes grant.
pub fn api_key_user(key: ApiKeyRecord, now: i64) -> (r: Option<AuthenticatedUser>)
    ensures
        key_expired(key.expires_at, now) ==> r is None,
        !key_expired(key.expires_at, now) ==> (r matches Some(u) && api_key_user_ok(u, key)),
{
    if let Some(expires_at) = key.expires_at {
        if now > expires_at {
            return None;
        }
    }
    let scopes = match decode_string_list(key.scopes.as_str()) {
        Some(v) => v,
        None => Vec::new(),
    };
    let ghost sv = scopes@.map_values(|s: String| s@);
    assert(sv == scopes_of(key.scopes@));
    let mut admin = false;
    let mut i: usize = 0;
    while i < scopes.len()
        invariant
            sv == scopes@.map_values(|s: String| s@),
            i <= scopes@.len(),
            admin == exists|j: int| 0 <= j < i && contains_text(#[trigger] sv[j], "admin"@),
        decreases scopes@.len() - i,
    {
        assert(sv[i as int] == scopes@[i as int]@);
        if text_contains(scopes[i].as_str(), "admin") {
            admin = true;
        }
        i = i + 1;
    }
    let role = if admin {
        "admin".to_owned()
    } else {
        "operator".to_owned()
    };
    let user_id = match key.user_id {
        Some(id) => id,
        None => "api-key-user".to_owned(),
    };
    Some(
        AuthenticatedUser {
            user_id,
            username: key.name,
            role,
            auth_method: AuthMethod::ApiKey { key_id: key.id },
        },
    )
}

/// A bearer token that verified: its claims, and whether it has expired.
pub struct VerifiedToken {
    pub claims: TokenClaims,
    pub expired: bool,
}

/// The authentication of a request, given how its header routes, the user
/// its API key belongs to (when it carries one and it was found active and
/// unexpired), and its bearer token (when it carries one and it verified):
/// no header is `MissingToken`; an API key not found is `InvalidApiKey`;
/// neither a key nor a bearer token, or a token that did not verify, is
/// `InvalidToken`; an expired token is `ExpiredToken`; otherwise the user.
pub fn authenticate(
    route: AuthRoute,
    api_key_user: Option<AuthenticatedUser>,
    token: Option<VerifiedToken>,
) -> (r: Result<AuthenticatedUser, AuthError>)
    ensures
        match route {
            AuthRoute::Missing => r == Err::<AuthenticatedUser, AuthError>(AuthError::MissingToken),
            AuthRoute::Malformed => r == Err::<AuthenticatedUser, AuthError>(AuthError::InvalidToken),
            AuthRoute::ApiKey(_) => match api_key_user {
                Some(u) => r == Ok::<AuthenticatedUser, AuthError>(u),
                None => r == Err::<AuthenticatedUser, AuthError>(AuthError::InvalidApiKey),
            },
            AuthRoute::Bearer(_) => match token {
                None => r == Err::<AuthenticatedUser, AuthError>(AuthError::InvalidToken),
                Some(t) => if t.expired {
                    r == Err::<AuthenticatedUser, AuthError>(AuthError::ExpiredToken)
                } else {
                    r matches Ok(u) && u.user_id@ == t.claims.sub@ && u.username@
                        == t.claims.username@ && u.role@ == t.claims.role@ && u.auth_method is Jwt
                },
            },
        },
{
    match route {
        AuthRoute::Missing => Err(AuthError::MissingToken),
        AuthRoute::Malformed => Err(AuthError::InvalidToken),
        AuthRoute::ApiKey(_) => match api_key_user {
            Some(u) => Ok(u),
            None => Err(AuthError::InvalidApiKey),
        },
        AuthRoute::Bearer(_) => match token {
            None => Err(AuthError::InvalidToken),
            Some(t) => {
                if t.expired {
                    Err(AuthError::ExpiredToken)
                } else {
                    Ok(AuthenticatedUser::from_claims(t.claims))
                }
            },
        },
    }
}

/// The user of a request under optional authentication: the user when
/// authentication succeeds, else none (the request goes on either way).
pub fn optional_user(
    route: AuthRoute,
    api_key_user: Option<AuthenticatedUser>,
    token: Option<VerifiedToken>,
) -> (r: Option<AuthenticatedUser>)
    ensures
        match route {
            AuthRoute::ApiKey(_) => r == api_key_user,
            AuthRoute::Bearer(_) => match token {
                Some(t) => if t.expired {
                    r is None
                } else {
                    r matches Some(u) && u.user_id@ == t.claims.sub@ && u.username@
                        == t.claims.username@ && u.role@ == t.claims.role@ && u.auth_method is Jwt
                },
                None => r is None,
            },
            _ => r is None,
        },
{
    match authenticate(route, api_key_user, token) {
        Ok(u) => Some(u),
        Err(_) => None,
    }
}

} // verus!
