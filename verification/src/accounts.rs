//! User accounts and API keys: the request bodies with their field rules,
//! and the answers.
use vstd::prelude::*;

use crate::validation::{
    check_length, count_rule, errors_view, length_rule, FieldError, FieldErrorView,
};

verus! {

/// Login credentials.
pub struct LoginRequest {
    pub username: String,
    pub password: String,
}

/// The public part of a user account.
pub struct UserInfo {
    pub id: String,
    pub username: String,
    pub email: String,
    pub role: String,
}

/// The answer to a successful login.
pub struct LoginResponse {
    pub token: String,
    pub token_type: String,
    pub expires_in: i64,
    pub user: UserInfo,
}

/// Self-registration of a user account.
pub struct RegisterRequest {
    pub username: String,
    pub email: String,
    pub password: String,
}

/// A password change.
pub struct ChangePasswordRequest {
    pub current_password: String,
    pub new_password: String,
}

/// Request to create an API key.
pub struct CreateApiKeyRequest {
    pub name: String,
    pub scopes: Vec<String>,
    pub expires_in_days: Option<i64>,
}

/// An API key as listed (without its secret).
pub struct ApiKeyResponse {
    pub id: String,
    pub name: String,
    pub prefix: String,
    pub scopes: Vec<String>,
    pub is_active: bool,
    pub created_at: String,
    pub expires_at: Option<String>,
    pub last_used_at: Option<String>,
}

/// A newly created API key, with its secret shown once.
pub struct CreatedApiKeyResponse {
    pub key: String,
    pub api_key: ApiKeyResponse,
}

/// What validator's `ValidateEmail::validate_email` decides for a text (the
/// HTML5 form of an address, with an internationalised domain converted).
pub uninterp spec fn email_valid(text: Seq<char>) -> bool;

/// `validator::ValidateEmail::validate_email` on `text`. The result is
/// named; stated besides, as its source shows: a text without `@` (the
/// empty text among them) is refused.
#[verifier::external_body]
fn email_ok(text: &str) -> (r: bool)
    ensures
        r == email_valid(text@),
        !text@.contains('@') ==> !r,
{
    validator::ValidateEmail::validate_email(&text)
}

/// The error of the email rule: none when the address is valid.
pub open spec fn email_rule(field: Seq<char>, value: Seq<char>, message: Seq<char>) -> Seq<
    FieldErrorView,
> {
    if email_valid(value) {
        Seq::empty()
    } else {
        seq![(field, message)]
    }
}

impl LoginRequest {
    /// The field rules: a username of 1 to 50 characters and a password.
    pub fn validate(&self) -> (r: Vec<FieldError>)
        ensures
            errors_view(r@) == length_rule(
                "username"@,
                self.username@,
                1,
                Some(50),
                "username is required"@,
            ) + length_rule("password"@, self.password@, 1, None, "password is required"@),
    {
        let mut e = Vec::new();
        assert(errors_view(e@) =~= Seq::<FieldErrorView>::empty());
        check_length(&mut e, "username", self.username.as_str(), 1, Some(50), "username is required");
        check_length(&mut e, "password", self.password.as_str(), 1, None, "password is required");
        e
    }
}

impl RegisterRequest {
    /// The field rules: a username of 3 to 50 characters, a valid email
    /// address, and a password of 6 to 128 characters.
    pub fn validate(&self) -> (r: Vec<FieldError>)
        ensures
            errors_view(r@) == length_rule(
                "username"@,
                self.username@,
                3,
                Some(50),
                "username must be 3–50 characters"@,
            ) + email_rule("email"@, self.email@, "invalid email format"@) + length_rule(
                "password"@,
                self.password@,
                6,
                Some(128),
                "password must be 6–128 characters"@,
            ),
    {
        let mut e = Vec::new();
        assert(errors_view(e@) =~= Seq::<FieldErrorView>::empty());
        check_length(
            &mut e,
            "username",
            self.username.as_str(),
            3,
            Some(50),
            "username must be 3–50 characters",
        );
        let ghost before = errors_view(e@);
        if !email_ok(self.email.as_str()) {
            e.push(
                FieldError { field: "email".to_owned(), message: "invalid email format".to_owned() },
            );
            assert(errors_view(e@) =~= before + seq![("email"@, "invalid email format"@)]);
        } else {
            assert(errors_view(e@) =~= before + Seq::<FieldErrorView>::empty());
        }
        check_length(
            &mut e,
            "password",
            self.password.as_str(),
            6,
            Some(128),
            "password must be 6–128 characters",
        );
        e
    }
}

impl ChangePasswordRequest {
    /// The field rules: the current password, and a new one of 6 to 128
    /// characters.
    pub fn validate(&self) -> (r: Vec<FieldError>)
        ensures
            errors_view(r@) == length_rule(
                "current_password"@,
                self.current_password@,
                1,
                None,
                "current password is required"@,
            ) + length_rule(
                "new_password"@,
                self.new_password@,
                6,
                Some(128),
                "new password must be 6–128 characters"@,
            ),
    {
        let mut e = Vec::new();
        assert(errors_view(e@) =~= Seq::<FieldErrorView>::empty());
        check_length(
            &mut e,
            "current_password",
            self.current_password.as_str(),
            1,
            None,
            "current password is required",
        );
        check_length(
            &mut e,
            "new_password",
            self.new_password.as_str(),
            6,
            Some(128),
            "new password must be 6–128 characters",
        );
        e
    }
}

impl CreateApiKeyRequest {
    /// The field rules: a name of 1 to 100 characters and at least one scope.
    pub fn validate(&self) -> (r: Vec<FieldError>)
        ensures
            errors_view(r@) == length_rule("name"@, self.name@, 1, Some(100), "name is required"@)
                + count_rule(
                "scopes"@,
                self.scopes@.len(),
                1,
                "at least one scope is required"@,
            ),
    {
        let mut e = Vec::new();
        assert(errors_view(e@) =~= Seq::<FieldErrorView>::empty());
        check_length(&mut e, "name", self.name.as_str(), 1, Some(100), "name is required");
        let ghost before = errors_view(e@);
        if self.scopes.len() < 1 {
            e.push(
                FieldError {
                    field: "scopes".to_owned(),
                    message: "at least one scope is required".to_owned(),
                },
            );
            assert(errors_view(e@) =~= before + seq![
                ("scopes"@, "at least one scope is required"@),
            ]);
        } else {
            assert(errors_view(e@) =~= before + Seq::<FieldErrorView>::empty());
        }
        e
    }
}

} // verus!
