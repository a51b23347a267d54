//! The workers' half of the pipeline.
//!
//! A fixed pool of homogeneous workers drains the handoff queue in
//! parallel. Each wake of a worker is one step: take the most recently
//! pushed payload, if there is one, and turn it into the HTTP POST that
//! forwards it — body the raw payload bytes, URL the configured upstream,
//! content type JSON. Sending the request, and the lock and wake signal
//! around the queue, belong to the embedding program; this module decides
//! what is sent and what a worker does next. A delivery failure discards
//! the payload and the worker keeps serving: no retry, no backoff, never
//! fatal.

use vstd::prelude::*;

verus! {

use crate::config::clone_string;
use crate::config::Config;
use crate::queue::HandoffQueue;

/// The media type every forwarded request declares.
pub open spec fn spec_json_content_type() -> Seq<char> {
    "application/json; charset=utf-8"@
}

/// The `Content-Type` header value of every forwarded request.
pub fn json_content_type() -> (s: String)
    ensures
        s@ == spec_json_content_type(),
{
    proof {
        broadcast use vstd::string::to_string_from_display_ensures_for_str;
    }
    "application/json; charset=utf-8".to_string()
}

/// One HTTP POST, ready to send: everything the transport needs, as plain
/// values.
pub struct DeliveryRequest {
    /// The upstream endpoint the request goes to.
    pub url: String,
    /// The value of the request's `Content-Type` header.
    pub content_type: String,
    /// The request body: the raw payload bytes, unframed and unaltered.
    pub body: Vec<u8>,
}

/// What a worker decides to do after one wake.
pub enum WorkerAction {
    /// Forward this request to the upstream endpoint, log the status code
    /// or the transport error, and take the next step.
    Deliver(DeliveryRequest),
    /// The queue was empty — a spurious wake, or another worker won the
    /// race. Normal, not an error: go back to waiting.
    AwaitWork,
}

/// Builds the POST that forwards one payload to the configured upstream.
pub fn build_delivery_request(config: &Config, payload: Vec<u8>) -> (req: DeliveryRequest)
    ensures
        req.url@ == config@.receiver_url,
        req.content_type@ == spec_json_content_type(),
        req.body@ == payload@,
{
    DeliveryRequest {
        url: clone_string(&config.receiver_url),
        content_type: json_content_type(),
        body: payload,
    }
}

/// One step of a worker: pop the most recently pushed payload and turn it
/// into its delivery request, or find the queue empty and go back to
/// waiting. The popped payload leaves the queue in the same step, so no
/// payload can ever be delivered by two workers.
pub fn worker_step(queue: &mut HandoffQueue, config: &Config) -> (action: WorkerAction)
    ensures
        old(queue)@.len() == 0 ==> action is AwaitWork && final(queue)@ == old(queue)@,
        old(queue)@.len() > 0 ==> (action matches WorkerAction::Deliver(req)
            && req.url@ == config@.receiver_url
            && req.content_type@ == spec_json_content_type()
            && req.body@ == old(queue)@.last()
            && final(queue)@ == old(queue)@.drop_last()),
{
    match queue.pop() {
        Some(payload) => WorkerAction::Deliver(build_delivery_request(config, payload)),
        None => WorkerAction::AwaitWork,
    }
}

/// The observed outcome of one delivery attempt; it is logged, not
/// retained.
pub enum DeliveryOutcome {
    /// The client returned a response without a transport error; the status
    /// code is logged, not interpreted.
    Response(u16),
    /// The transport failed; the error's description is logged.
    TransportError,
}

/// A worker never terminates voluntarily: every outcome — success, any
/// status code, or a transport error — is recovered locally, the payload is
/// discarded, and the worker keeps serving.
pub fn worker_continues_after(outcome: &DeliveryOutcome) -> (keep_running: bool)
    ensures
        keep_running,
{
    match outcome {
        DeliveryOutcome::Response(_) => true,
        DeliveryOutcome::TransportError => true,
    }
}

} // verus!
