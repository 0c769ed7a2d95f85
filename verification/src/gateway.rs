//! The gateway's front door: everything that must be decided about an
//! inbound chat-completion request before any upstream I/O. The body must
//! have deserialized, the caller must authenticate, and the credential-store
//! snapshot must be non-empty; only then is the upstream request built and a
//! failover scan opened. A rejected request never reaches the dispatcher,
//! so it causes zero upstream attempts.

use vstd::prelude::*;

use crate::auth::{authenticate, spec_authenticate, spec_has_bearer_prefix, spec_header_view};
use crate::dispatch::{DispatchState, Dispatcher};
use crate::errors::{error_body, http_status, spec_error_body, spec_http_status, ErrorKind};
use crate::models::{ApiToken, Credential};
use crate::translate::{spec_stream_requested, spec_translate, translate, AtlassianRequest,
    ChatCompletionRequest};

verus! {

/// What is to happen to one inbound request: either it is rejected outright
/// with a single JSON error document, or exactly one upstream request is
/// built — reused unmodified across every attempt — and a failover scan is
/// opened over the credential snapshot.
pub enum RequestPlan {
    /// The request is answered immediately with an error document; no
    /// upstream attempt is made.
    Reject { kind: ErrorKind, status: u16, body: String },
    /// The request proceeds: the scan's dispatcher starts at the first
    /// credential, and `stream` mirrors the caller's requested mode.
    Dispatch { upstream: AtlassianRequest, dispatcher: Dispatcher, stream: bool },
}

/// Which error, if any, rejects the request before any upstream work:
/// an unreadable body first, then the authentication outcome, then an empty
/// credential store.
pub open spec fn spec_reject_kind(
    body_parsed: bool,
    header: Option<Seq<char>>,
    tokens: Seq<ApiToken>,
    credential_count: int,
) -> Option<ErrorKind> {
    if !body_parsed {
        Some(ErrorKind::InvalidRequestBody)
    } else {
        match spec_authenticate(header, tokens) {
            Err(k) => Some(k),
            Ok(_) => if credential_count == 0 {
                Some(ErrorKind::NoCredentialsConfigured)
            } else {
                None
            },
        }
    }
}

/// A rejection carrying its error's status and JSON document.
fn reject(kind: ErrorKind) -> (r: RequestPlan)
    ensures
        (r matches RequestPlan::Reject { kind: k, status, body } && k == kind && status
            == spec_http_status(kind) && body@ == spec_error_body(kind)),
{
    RequestPlan::Reject { kind, status: http_status(kind), body: error_body(kind) }
}

/// Decides one inbound request, given the raw `Authorization` header value,
/// the access-token snapshot, the deserialized body if it could be read, and
/// the credential-store snapshot. No I/O happens here: a `Dispatch` plan is
/// carried out by its dispatcher one attempt at a time, and a `Reject` plan
/// makes zero upstream attempts.
pub fn plan_request(
    header: Option<&str>,
    tokens: &Vec<ApiToken>,
    body: Option<ChatCompletionRequest>,
    credentials: &Vec<Credential>,
) -> (r: RequestPlan)
    ensures
        match spec_reject_kind(
            body is Some,
            spec_header_view(header),
            tokens@,
            credentials@.len() as int,
        ) {
            Some(k) => (r matches RequestPlan::Reject { kind, status, body: doc } && kind == k
                && status == spec_http_status(k) && doc@ == spec_error_body(k)),
            None => (r matches RequestPlan::Dispatch { upstream, dispatcher, stream } && upstream
                == spec_translate(body->0) && stream == spec_stream_requested(body->0)
                && dispatcher.wf() && dispatcher.credential_count == credentials@.len()
                && dispatcher.attempts == 0 && dispatcher.state == (DispatchState::Attempting {
                idx: 0,
            })),
        },
{
    let b = match body {
        None => {
            return reject(ErrorKind::InvalidRequestBody);
        },
        Some(b) => b,
    };
    match authenticate(header, tokens) {
        Err(k) => {
            return reject(k);
        },
        Ok(_) => {},
    }
    if credentials.len() == 0 {
        return reject(ErrorKind::NoCredentialsConfigured);
    }
    let stream = match b.stream {
        Some(s) => s,
        None => false,
    };
    let upstream = translate(b);
    let mut dispatcher = Dispatcher::new(credentials.len());
    dispatcher.start();
    RequestPlan::Dispatch { upstream, dispatcher, stream }
}

/// A request with a missing or malformed `Authorization` header — one whose
/// body deserialized — is rejected with the authentication failure, whatever
/// the token and credential stores hold; a rejected request makes zero
/// upstream attempts.
pub proof fn lemma_auth_failure_rejects(
    header: Option<Seq<char>>,
    tokens: Seq<ApiToken>,
    credential_count: int,
)
    requires
        header is None || !spec_has_bearer_prefix(header->0),
    ensures
        spec_reject_kind(true, header, tokens, credential_count) == Some(
            ErrorKind::MissingOrMalformedCredential,
        ),
{
}

} // verus!
