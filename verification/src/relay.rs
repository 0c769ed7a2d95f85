//! The response relay: given the terminal outcome of a failover scan and
//! the caller's requested mode, decide how the caller-facing response is
//! produced, and account for the bytes that pass through. The actual
//! reading and writing of sockets stays with the surrounding application;
//! the relay's promise is that bytes pass through unchanged.

use vstd::prelude::*;

use crate::dispatch::DispatchState;
use crate::errors::{error_body, http_status, spec_error_body, ErrorKind};

verus! {

/// How the caller-facing response is produced from a terminal scan outcome.
pub enum RelayPlan {
    /// Read the upstream body fully, parse it as JSON, and re-emit it as one
    /// document, byte-identical to what the winning upstream returned.
    BufferedJson,
    /// Relay the upstream byte stream chunk by chunk as an event stream,
    /// without buffering the full body first.
    EventStream,
    /// Emit a single JSON error document with a gateway-class status; no
    /// partial data.
    ErrorDocument { status: u16, body: String },
}

/// Plans the caller-facing response. An exhausted scan yields the
/// upstream-unavailable error document regardless of the requested mode;
/// a successful scan mirrors the caller's mode.
pub fn relay_plan(stream_requested: bool, terminal: &DispatchState) -> (r: RelayPlan)
    requires
        terminal is Succeeded || terminal is Exhausted,
    ensures
        terminal is Exhausted ==> (r matches RelayPlan::ErrorDocument { status, body }
            && status == 502 && body@ == spec_error_body(ErrorKind::UpstreamUnavailable)),
        terminal is Succeeded && !stream_requested ==> r is BufferedJson,
        terminal is Succeeded && stream_requested ==> r is EventStream,
{
    match terminal {
        DispatchState::Exhausted => RelayPlan::ErrorDocument {
            status: http_status(ErrorKind::UpstreamUnavailable),
            body: error_body(ErrorKind::UpstreamUnavailable),
        },
        _ => if stream_requested {
            RelayPlan::EventStream
        } else {
            RelayPlan::BufferedJson
        },
    }
}

/// The non-streaming relay: the fully buffered upstream body is re-emitted
/// unchanged, byte for byte.
pub fn relay_buffered(body: Vec<u8>) -> (out: Vec<u8>)
    ensures
        out@ == body@,
{
    body
}

/// The total number of bytes over a sequence of chunks.
pub open spec fn spec_total_len(chunks: Seq<Seq<u8>>) -> int
    decreases chunks.len(),
{
    if chunks.len() == 0 {
        0
    } else {
        spec_total_len(chunks.drop_last()) + chunks.last().len()
    }
}

/// The streaming relay's accounting: which chunks arrived from the upstream,
/// which were handed to the caller, and how many bytes that is. One chunk is
/// taken and passed on at a time, so caller back-pressure reaches the
/// upstream read and nothing is buffered beyond the chunk in flight.
pub struct StreamRelay {
    /// The chunks read from the upstream so far, in arrival order.
    pub upstream: Ghost<Seq<Seq<u8>>>,
    /// The chunks handed to the caller so far, in delivery order.
    pub relayed: Ghost<Seq<Seq<u8>>>,
    /// The number of bytes handed to the caller so far.
    pub relayed_bytes: u64,
}

impl StreamRelay {
    /// The relay's invariant: what was delivered is exactly what arrived,
    /// and the byte counter matches it.
    pub open spec fn wf(self) -> bool {
        &&& self.relayed@ == self.upstream@
        &&& self.relayed_bytes == spec_total_len(self.relayed@)
    }

    /// A relay that has seen no chunk yet.
    pub fn new() -> (r: StreamRelay)
        ensures
            r.wf(),
            r.upstream@ == Seq::<Seq<u8>>::empty(),
            r.relayed_bytes == 0,
    {
        StreamRelay { upstream: Ghost(Seq::empty()), relayed: Ghost(Seq::empty()), relayed_bytes: 0 }
    }

    /// Passes one upstream chunk through to the caller, unchanged.
    pub fn relay_chunk(&mut self, chunk: Vec<u8>) -> (out: Vec<u8>)
        requires
            old(self).wf(),
            old(self).relayed_bytes + chunk@.len() <= u64::MAX,
        ensures
            final(self).wf(),
            out@ == chunk@,
            final(self).upstream@ == old(self).upstream@.push(chunk@),
            final(self).relayed@ == old(self).relayed@.push(out@),
            final(self).relayed_bytes == old(self).relayed_bytes + chunk@.len(),
    {
        self.upstream = Ghost(self.upstream@.push(chunk@));
        self.relayed = Ghost(self.relayed@.push(chunk@));
        self.relayed_bytes = self.relayed_bytes + chunk.len() as u64;
        proof {
            assert(self.relayed@.drop_last() =~= old(self).relayed@);
        }
        chunk
    }
}

/// The streaming relay delivers the upstream stream exactly: chunk by chunk
/// in order, and the total bytes handed to the caller equal the upstream's
/// total bytes.
pub proof fn lemma_stream_relay_exact(r: StreamRelay)
    requires
        r.wf(),
    ensures
        r.relayed@ == r.upstream@,
        r.relayed_bytes == spec_total_len(r.upstream@),
{
}

} // verus!
