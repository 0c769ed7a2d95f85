//! The gateway's error taxonomy, its HTTP status mapping, and the JSON error
//! documents the caller receives.

use vstd::prelude::*;

verus! {

/// Every way a request through the gateway can fail from the caller's point
/// of view. Per-attempt upstream failures are recovered internally by the
/// failover scan and never surface individually.
#[derive(Clone, Copy, Debug, PartialEq, Eq, Structural)]
pub enum ErrorKind {
    /// The `Authorization` header was absent or did not carry a bearer token.
    MissingOrMalformedCredential,
    /// The bearer token was well-formed but is not a stored access token.
    InvalidCredential,
    /// The request body could not be read as a chat-completion request.
    InvalidRequestBody,
    /// The credential store holds no upstream credential at all.
    NoCredentialsConfigured,
    /// Every stored credential was tried and every attempt failed.
    UpstreamUnavailable,
}

/// The HTTP status each error is reported with.
pub open spec fn spec_http_status(kind: ErrorKind) -> u16 {
    match kind {
        ErrorKind::MissingOrMalformedCredential => 401,
        ErrorKind::InvalidCredential => 401,
        ErrorKind::InvalidRequestBody => 400,
        ErrorKind::NoCredentialsConfigured => 500,
        ErrorKind::UpstreamUnavailable => 502,
    }
}

/// The HTTP status class each error is reported with.
pub fn http_status(kind: ErrorKind) -> (s: u16)
    ensures
        s == spec_http_status(kind),
{
    match kind {
        ErrorKind::MissingOrMalformedCredential => 401,
        ErrorKind::InvalidCredential => 401,
        ErrorKind::InvalidRequestBody => 400,
        ErrorKind::NoCredentialsConfigured => 500,
        ErrorKind::UpstreamUnavailable => 502,
    }
}

/// The message inside the JSON error document for each error.
pub open spec fn spec_error_message(kind: ErrorKind) -> Seq<char> {
    match kind {
        ErrorKind::MissingOrMalformedCredential => "API key is required"@,
        ErrorKind::InvalidCredential => "Invalid API key"@,
        ErrorKind::InvalidRequestBody => "Invalid request"@,
        ErrorKind::NoCredentialsConfigured => "No credentials configured"@,
        ErrorKind::UpstreamUnavailable => "All credentials exhausted"@,
    }
}

/// The full JSON error document: an object with a single `error` member.
pub open spec fn spec_error_body(kind: ErrorKind) -> Seq<char> {
    "{\"error\":\""@ + spec_error_message(kind) + "\"}"@
}

/// The caller-facing body for a failed request. Every failure case emits one
/// JSON document of the shape `{"error":"..."}`; the messages are fixed and
/// contain no characters that JSON would require escaping.
pub fn error_body(kind: ErrorKind) -> (r: String)
    ensures
        r@ == spec_error_body(kind),
{
    let mut body = String::new();
    body.append("{\"error\":\"");
    match kind {
        ErrorKind::MissingOrMalformedCredential => body.append("API key is required"),
        ErrorKind::InvalidCredential => body.append("Invalid API key"),
        ErrorKind::InvalidRequestBody => body.append("Invalid request"),
        ErrorKind::NoCredentialsConfigured => body.append("No credentials configured"),
        ErrorKind::UpstreamUnavailable => body.append("All credentials exhausted"),
    }
    body.append("\"}");
    body
}

} // verus!
