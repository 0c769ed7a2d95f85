use ai_gateway::auth::{authenticate, claims_for, parse_bearer_token, validate_api_token};
use ai_gateway::dispatch::{scan, AttemptOutcome, DispatchState, Dispatcher};
use ai_gateway::errors::{error_body, http_status, ErrorKind};
use ai_gateway::gateway::{plan_request, RequestPlan};
use ai_gateway::models::ApiToken;
use ai_gateway::relay::{relay_buffered, relay_plan, RelayPlan, StreamRelay};
use ai_gateway::translate::{translate, ChatCompletionRequest, ChatMessage};

fn token(id: i32, secret: &str) -> ApiToken {
    ApiToken { id, token: secret.to_string() }
}

fn credential(id: i32, email: &str, secret: &str) -> ai_gateway::models::Credential {
    ai_gateway::models::Credential { id, email: email.to_string(), token: secret.to_string() }
}

fn simple_request(stream: Option<bool>) -> ChatCompletionRequest {
    ChatCompletionRequest {
        model: "gpt-3.5-turbo".to_string(),
        messages: vec![ChatMessage { role: "user".to_string(), content: "hi".to_string() }],
        stream,
        temperature: None,
    }
}

// ---- Caller authenticator ----

#[test]
fn bearer_header_missing() {
    assert!(matches!(parse_bearer_token(None), Err(ErrorKind::MissingOrMalformedCredential)));
}

#[test]
fn bearer_header_malformed() {
    for h in ["", "Bearer", "bearer tok", "Bearer", "Basic dXNlcg==", "BEARER tok", "Bearer"] {
        assert!(
            matches!(parse_bearer_token(Some(h)), Err(ErrorKind::MissingOrMalformedCredential)),
            "header {h:?} should be malformed"
        );
    }
}

#[test]
fn bearer_header_well_formed() {
    assert_eq!(parse_bearer_token(Some("Bearer tok-123")).unwrap(), "tok-123");
    // A single space and nothing after the prefix still parses, as an empty token.
    assert_eq!(parse_bearer_token(Some("Bearer ")).unwrap(), "");
}

#[test]
fn token_membership() {
    let tokens = vec![token(1, "alpha"), token(2, "beta")];
    assert!(validate_api_token(&tokens, "beta").is_ok());
    assert!(matches!(validate_api_token(&tokens, "gamma"), Err(ErrorKind::InvalidCredential)));
    assert!(matches!(validate_api_token(&vec![], "alpha"), Err(ErrorKind::InvalidCredential)));
}

#[test]
fn authenticate_full_check() {
    let tokens = vec![token(1, "alpha")];
    assert!(authenticate(Some("Bearer alpha"), &tokens).is_ok());
    assert!(matches!(
        authenticate(Some("Bearer beta"), &tokens),
        Err(ErrorKind::InvalidCredential)
    ));
    assert!(matches!(
        authenticate(Some("alpha"), &tokens),
        Err(ErrorKind::MissingOrMalformedCredential)
    ));
    assert!(matches!(authenticate(None, &tokens), Err(ErrorKind::MissingOrMalformedCredential)));
}

// ---- Request translator ----

#[test]
fn translate_copies_messages_and_defaults_stream() {
    let req = ChatCompletionRequest {
        model: "gpt-3.5-turbo".to_string(),
        messages: vec![
            ChatMessage { role: "system".to_string(), content: "be brief".to_string() },
            ChatMessage { role: "user".to_string(), content: "hi".to_string() },
        ],
        stream: None,
        temperature: Some(0.5f32.to_bits()),
    };
    let up = translate(req);
    assert_eq!(up.request_payload.messages.len(), 2);
    assert_eq!(up.request_payload.messages[0].role, "system");
    assert_eq!(up.request_payload.messages[0].content, "be brief");
    assert_eq!(up.request_payload.messages[1].role, "user");
    assert_eq!(up.request_payload.messages[1].content, "hi");
    assert!(!up.request_payload.stream);
    assert_eq!(up.request_payload.temperature, Some(0.5f32.to_bits()));
    assert_eq!(up.platform_attributes.model, "gpt-3.5-turbo");
}

#[test]
fn translate_keeps_requested_stream_mode() {
    let up = translate(simple_request(Some(true)));
    assert!(up.request_payload.stream);
    let up = translate(simple_request(Some(false)));
    assert!(!up.request_payload.stream);
}

// ---- Failover dispatcher ----

#[test]
fn scan_empty_store_makes_zero_attempts() {
    let (attempts, winner) = scan(&vec![]);
    assert_eq!(attempts, 0);
    assert!(winner.is_none());
}

#[test]
fn scan_stops_at_first_success() {
    let outcomes = vec![AttemptOutcome::Success, AttemptOutcome::TransportError];
    let (attempts, winner) = scan(&outcomes);
    assert_eq!(attempts, 1);
    assert_eq!(winner, Some(0));
}

#[test]
fn scan_last_credential_wins_after_all_others_fail() {
    let outcomes = vec![
        AttemptOutcome::RejectedStatus { status: 500 },
        AttemptOutcome::TransportError,
        AttemptOutcome::RejectedStatus { status: 429 },
        AttemptOutcome::Success,
    ];
    let (attempts, winner) = scan(&outcomes);
    assert_eq!(attempts, 4);
    assert_eq!(winner, Some(3));
}

#[test]
fn scan_all_failing_tries_every_credential_once() {
    let outcomes = vec![
        AttemptOutcome::RejectedStatus { status: 500 },
        AttemptOutcome::RejectedStatus { status: 503 },
        AttemptOutcome::TransportError,
    ];
    let (attempts, winner) = scan(&outcomes);
    assert_eq!(attempts, 3);
    assert!(winner.is_none());
}

#[test]
fn dispatcher_walks_credentials_in_store_order() {
    let mut d = Dispatcher::new(3);
    d.start();
    assert_eq!(d.next_credential(), Some(0));
    d.record_outcome(AttemptOutcome::RejectedStatus { status: 500 });
    assert_eq!(d.next_credential(), Some(1));
    d.record_outcome(AttemptOutcome::TransportError);
    assert_eq!(d.next_credential(), Some(2));
    d.record_outcome(AttemptOutcome::Success);
    assert_eq!(d.next_credential(), None);
    assert!(d.is_terminal());
    assert_eq!(d.state, DispatchState::Succeeded { idx: 2 });
    assert_eq!(d.attempts, 3);
}

#[test]
fn dispatcher_exhausts_when_every_attempt_fails() {
    let mut d = Dispatcher::new(2);
    d.start();
    d.record_outcome(AttemptOutcome::RejectedStatus { status: 502 });
    d.record_outcome(AttemptOutcome::TransportError);
    assert_eq!(d.state, DispatchState::Exhausted);
    assert_eq!(d.attempts, 2);
}

#[test]
fn dispatcher_on_empty_store_is_exhausted_without_attempts() {
    let mut d = Dispatcher::new(0);
    d.start();
    assert_eq!(d.state, DispatchState::Exhausted);
    assert_eq!(d.attempts, 0);
}

// ---- Response relay ----

#[test]
fn relay_buffered_is_byte_identical() {
    let body = b"{\"id\":\"x\"}".to_vec();
    let out = relay_buffered(body.clone());
    assert_eq!(out, body);
    let parsed: serde_json::Value = serde_json::from_slice(&out).unwrap();
    assert_eq!(parsed.get("id").unwrap().as_str(), Some("x"));
}

#[test]
fn relay_plan_mirrors_requested_mode_on_success() {
    let won = DispatchState::Succeeded { idx: 0 };
    assert!(matches!(relay_plan(false, &won), RelayPlan::BufferedJson));
    assert!(matches!(relay_plan(true, &won), RelayPlan::EventStream));
}

#[test]
fn relay_plan_exhausted_is_bad_gateway_json() {
    let plan = relay_plan(false, &DispatchState::Exhausted);
    match plan {
        RelayPlan::ErrorDocument { status, body } => {
            assert_eq!(status, 502);
            let parsed: serde_json::Value = serde_json::from_str(&body).unwrap();
            assert_eq!(parsed.get("error").unwrap().as_str(), Some("All credentials exhausted"));
        },
        _ => panic!("an exhausted scan must produce an error document"),
    }
}

#[test]
fn stream_relay_passes_chunks_through_and_counts_bytes() {
    let mut r = StreamRelay::new();
    let first = r.relay_chunk(b"data: one\n\n".to_vec());
    assert_eq!(first, b"data: one\n\n".to_vec());
    let second = r.relay_chunk(b"data: two\n\n".to_vec());
    assert_eq!(second, b"data: two\n\n".to_vec());
    assert_eq!(r.relayed_bytes, 22);
}

// ---- Error taxonomy ----

#[test]
fn every_error_has_a_status_and_a_json_document() {
    let cases = [
        (ErrorKind::MissingOrMalformedCredential, 401, "API key is required"),
        (ErrorKind::InvalidCredential, 401, "Invalid API key"),
        (ErrorKind::InvalidRequestBody, 400, "Invalid request"),
        (ErrorKind::NoCredentialsConfigured, 500, "No credentials configured"),
        (ErrorKind::UpstreamUnavailable, 502, "All credentials exhausted"),
    ];
    for (kind, status, message) in cases {
        assert_eq!(http_status(kind), status);
        let body = error_body(kind);
        let parsed: serde_json::Value = serde_json::from_str(&body).unwrap();
        assert_eq!(parsed.get("error").unwrap().as_str(), Some(message));
    }
}

// ---- The gateway front door ----

#[test]
fn rejects_before_any_upstream_work() {
    let tokens = vec![token(1, "alpha")];
    let creds = vec![credential(1, "a@example.com", "secret-a")];

    let plan = plan_request(None, &tokens, Some(simple_request(None)), &creds);
    assert!(
        matches!(plan, RequestPlan::Reject { kind: ErrorKind::MissingOrMalformedCredential, status: 401, .. })
    );

    let plan = plan_request(Some("Bearer nope"), &tokens, Some(simple_request(None)), &creds);
    assert!(matches!(plan, RequestPlan::Reject { kind: ErrorKind::InvalidCredential, status: 401, .. }));

    let plan = plan_request(Some("Bearer alpha"), &tokens, None, &creds);
    assert!(matches!(plan, RequestPlan::Reject { kind: ErrorKind::InvalidRequestBody, status: 400, .. }));

    let plan = plan_request(Some("Bearer alpha"), &tokens, Some(simple_request(None)), &vec![]);
    assert!(
        matches!(plan, RequestPlan::Reject { kind: ErrorKind::NoCredentialsConfigured, status: 500, .. })
    );
}

#[test]
fn two_credentials_second_succeeds() {
    // The concrete end-to-end scenario: a non-streaming request, credential A
    // failing with a 500, credential B answering 200 with `{"id":"x"}`.
    let tokens = vec![token(1, "caller-key")];
    let creds = vec![
        credential(1, "a@example.com", "secret-a"),
        credential(2, "b@example.com", "secret-b"),
    ];
    let plan = plan_request(
        Some("Bearer caller-key"),
        &tokens,
        Some(simple_request(Some(false))),
        &creds,
    );
    let (upstream, mut dispatcher, stream) = match plan {
        RequestPlan::Dispatch { upstream, dispatcher, stream } => (upstream, dispatcher, stream),
        RequestPlan::Reject { .. } => panic!("the request must be dispatched"),
    };
    assert!(!stream);
    assert_eq!(upstream.platform_attributes.model, "gpt-3.5-turbo");
    assert_eq!(upstream.request_payload.messages.len(), 1);

    // First attempt: credential A fails with a 500.
    assert_eq!(dispatcher.next_credential(), Some(0));
    dispatcher.record_outcome(AttemptOutcome::RejectedStatus { status: 500 });
    // Second attempt: credential B succeeds.
    assert_eq!(dispatcher.next_credential(), Some(1));
    dispatcher.record_outcome(AttemptOutcome::Success);

    assert_eq!(dispatcher.attempts, 2);
    assert_eq!(dispatcher.state, DispatchState::Succeeded { idx: 1 });

    assert!(matches!(relay_plan(stream, &dispatcher.state), RelayPlan::BufferedJson));
    let body = relay_buffered(b"{\"id\":\"x\"}".to_vec());
    assert_eq!(body, b"{\"id\":\"x\"}".to_vec());
}

// ---- Admin-session claims ----

#[test]
fn claims_expire_one_day_later() {
    let claims = claims_for("admin", 1_700_000_000).unwrap();
    assert_eq!(claims.sub, "admin");
    assert_eq!(claims.exp, 1_700_086_400);
    assert!(claims_for("admin", -100_000_000_000).is_none());
}
