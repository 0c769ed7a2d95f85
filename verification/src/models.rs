//! The record types the gateway works on: stored upstream credentials, the
//! caller-facing access tokens, the admin account, and the admin-side form
//! and session payloads. The surrounding application owns storage and wire
//! encodings; the library only reads snapshots of these values.

use vstd::prelude::*;

verus! {

/// One stored upstream credential: a labelled secret used to authenticate a
/// single outbound attempt to the upstream API.
pub struct Credential {
    pub id: i32,
    pub email: String,
    pub token: String,
}

/// An opaque bearer secret a caller must present to use the gateway. The
/// gateway checks membership only; a token carries no identity or scope.
pub struct ApiToken {
    pub id: i32,
    pub token: String,
}

/// The admin account record, checked only by the operator-facing login.
pub struct User {
    pub id: i32,
    pub username: String,
    pub password_hash: String,
}

/// The admin-session claims: the subject and its expiry as a Unix timestamp.
pub struct Claims {
    pub sub: String,
    pub exp: usize,
}

/// The operator login request body.
pub struct AuthRequest {
    pub username: String,
    pub password: String,
}

/// The admin login form.
pub struct LoginForm {
    pub username: String,
    pub password: String,
}

/// The admin form that adds one upstream credential.
pub struct CredentialForm {
    pub email: String,
    pub token: String,
}

} // verus!
