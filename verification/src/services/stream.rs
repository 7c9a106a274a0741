//! Forwarding a provider's streamed answer: each chunk becomes a numbered event, a broken
//! stream becomes the report of a failed query, and the finished stream is counted.

use vstd::prelude::*;
use uuid::Uuid;
use crate::error::BridgeError;
use crate::services::bridge::{announces, BridgeState, Publication, publication};
use crate::services::command::{counts_request, failure_event, latency_since, reports_failure, Action};
use crate::services::bridge::now;
use crate::types::{BridgeEvent, ProviderMetrics, StreamChunk};

verus! {

/// Forwards a provider's streamed answer as numbered chunk events, and reports a broken
/// stream as a failed query.
#[derive(Debug)]
pub struct StreamForwarder {
    pub query_id: Uuid,
    pub correlation_id: Uuid,
    pub provider: String,
    pub started: std::time::Instant,
    /// The number the next chunk gets.
    pub sequence: u32,
    /// More of the stream is to be forwarded.
    pub open: bool,
    /// An event is being published: `Some(true)` for a chunk, `Some(false)` for the
    /// report of a broken stream.
    pub pending: Option<bool>,
}

impl StreamForwarder {
    /// The event for the next item of the stream: a chunk becomes the next numbered chunk
    /// event; an error becomes the report of a failed query, after which the stream is
    /// not forwarded further.
    pub fn forward(&mut self, item: Result<StreamChunk, BridgeError>) -> (p: Publication)
        requires
            old(self).open,
            old(self).pending is None,
        ensures
            final(self).query_id == old(self).query_id,
            final(self).correlation_id == old(self).correlation_id,
            final(self).provider == old(self).provider,
            final(self).started == old(self).started,
            final(self).sequence == old(self).sequence,
            final(self).open,
            match item {
                Ok(chunk) => {
                    &&& announces(
                        p,
                        BridgeEvent::StreamChunk {
                            query_id: old(self).query_id,
                            chunk,
                            sequence: old(self).sequence,
                        },
                        old(self).correlation_id,
                    )
                    &&& final(self).pending == Some(true)
                },
                Err(e) => {
                    &&& reports_failure(
                        Action::Publish(p),
                        old(self).query_id,
                        old(self).provider,
                        e,
                        old(self).correlation_id,
                    )
                    &&& final(self).pending == Some(false)
                },
            },
    {
        match item {
            Ok(chunk) => {
                self.pending = Some(true);
                publication(
                    BridgeEvent::StreamChunk { query_id: self.query_id, chunk, sequence: self.sequence },
                    self.correlation_id,
                )
            },
            Err(e) => {
                self.pending = Some(false);
                let event = failure_event(self.query_id, self.provider.clone(), &e);
                publication(event, self.correlation_id)
            },
        }
    }

    /// Whether numbering one more chunk stays within `u32`.
    pub fn can_number_next(&self) -> (b: bool)
        ensures
            b == (self.sequence < u32::MAX),
    {
        self.sequence < u32::MAX
    }

    /// Takes the outcome of publishing the pending event. A published chunk moves the
    /// numbering on; a chunk that could not be published, and any report of a broken
    /// stream, end the forwarding.
    pub fn published(&mut self, ok: bool)
        requires
            old(self).pending is Some,
            old(self).pending == Some(true) && ok ==> old(self).sequence < u32::MAX,
        ensures
            final(self).query_id == old(self).query_id,
            final(self).correlation_id == old(self).correlation_id,
            final(self).provider == old(self).provider,
            final(self).started == old(self).started,
            final(self).pending is None,
            old(self).pending == Some(true) && ok ==> {
                &&& final(self).sequence == old(self).sequence + 1
                &&& final(self).open == old(self).open
            },
            !(old(self).pending == Some(true) && ok) ==> {
                &&& final(self).sequence == old(self).sequence
                &&& !final(self).open
            },
    {
        if self.pending == Some(true) && ok {
            self.sequence = self.sequence + 1;
        } else {
            self.open = false;
        }
        self.pending = None;
    }

    /// The stream has ended: counts the streamed query in the provider's metrics, as a
    /// success whatever came of it, with its latency and end time.
    pub fn finish(self, state: &mut BridgeState) -> (m: ProviderMetrics)
        requires
            old(state).wf(),
            old(state).countable(self.provider@),
        ensures
            final(state).wf(),
            counts_request(*old(state), *final(state), self.provider@, true, m),
    {
        let latency_ms = latency_since(&self.started);
        let at = now();
        state.record(&self.provider, true, latency_ms, at)
    }
}

} // verus!
