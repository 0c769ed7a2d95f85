//! The request translator: maps an inbound OpenAI-shaped chat-completion
//! request into the upstream request shape. A pure reshaping — the message
//! history is carried over in order, the temperature passes through
//! untouched, the stream flag defaults to off when absent, and the model
//! label moves into the upstream's platform metadata unmapped.
//!
//! The temperature is an IEEE-754 single-precision value on the wire; the
//! library never computes with it, so it is held here as the value's raw
//! bit pattern and the surrounding application converts at the edge.

use vstd::prelude::*;

verus! {

/// One chat message: a role and its content.
pub struct ChatMessage {
    pub role: String,
    pub content: String,
}

/// The inbound OpenAI-shaped chat-completion request.
pub struct ChatCompletionRequest {
    pub model: String,
    pub messages: Vec<ChatMessage>,
    pub stream: Option<bool>,
    /// The sampling temperature as IEEE-754 single-precision bits.
    pub temperature: Option<u32>,
}

/// The payload part of the upstream request.
pub struct AtlassianRequestPayload {
    pub messages: Vec<ChatMessage>,
    /// The sampling temperature as IEEE-754 single-precision bits.
    pub temperature: Option<u32>,
    pub stream: bool,
}

/// The model-selection metadata of the upstream request.
pub struct AtlassianPlatformAttrs {
    pub model: String,
}

/// The upstream request shape: constructed once per inbound request and
/// reused unmodified across every credential attempt of its failover scan.
pub struct AtlassianRequest {
    pub request_payload: AtlassianRequestPayload,
    pub platform_attributes: AtlassianPlatformAttrs,
}

/// Whether the inbound request asked for a streamed response: absent means
/// no, with no other default substitution.
pub open spec fn spec_stream_requested(req: ChatCompletionRequest) -> bool {
    match req.stream {
        Some(b) => b,
        None => false,
    }
}

/// The translation itself, as a value: messages verbatim and
/// order-preserved, temperature unchanged including absence, stream
/// defaulted to off when absent, and the model label passed through.
pub open spec fn spec_translate(req: ChatCompletionRequest) -> AtlassianRequest {
    AtlassianRequest {
        request_payload: AtlassianRequestPayload {
            messages: req.messages,
            temperature: req.temperature,
            stream: spec_stream_requested(req),
        },
        platform_attributes: AtlassianPlatformAttrs { model: req.model },
    }
}

/// Translates the inbound request into the upstream shape: messages verbatim
/// and order-preserved, temperature unchanged including absence, stream
/// defaulted to off when absent, and the model label passed through opaquely.
/// Performs no I/O and cannot fail on a well-formed request.
pub fn translate(req: ChatCompletionRequest) -> (r: AtlassianRequest)
    ensures
        r == spec_translate(req),
        r.request_payload.messages == req.messages,
        r.request_payload.temperature == req.temperature,
        r.request_payload.stream == spec_stream_requested(req),
        r.platform_attributes.model == req.model,
{
    let stream = match req.stream {
        Some(b) => b,
        None => false,
    };
    AtlassianRequest {
        request_payload: AtlassianRequestPayload {
            messages: req.messages,
            temperature: req.temperature,
            stream,
        },
        platform_attributes: AtlassianPlatformAttrs { model: req.model },
    }
}

} // verus!
