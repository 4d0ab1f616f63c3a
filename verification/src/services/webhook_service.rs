use vstd::prelude::*;
use vstd::utf8::encode_utf8;
use crate::crypto::{hex_encode, hex_lower, hmac_sha256, hmac_sha256_tag, lemma_hex_lower_shape};
use crate::entropy::{new_ulid, random_bytes_16};
use crate::models::webhook::{DeliveryState, WebhookDelivery, WebhookEndpoint};
use crate::text::{joined, owned};

verus! {

// ---------------------------------------------------------------------------
// Events
// ---------------------------------------------------------------------------

/// The events that the service announces to webhook endpoints.
#[derive(PartialEq, Eq, Structural, Clone, Copy, Debug)]
pub enum WebhookEvent {
    InvoiceCreated,
    InvoicePaid,
    InvoicePaymentFailed,
}

/// The name of an event, as sent in the `X-Webhook-Event` header and the payload.
pub open spec fn event_name(e: WebhookEvent) -> Seq<char> {
    match e {
        WebhookEvent::InvoiceCreated => "invoice.created"@,
        WebhookEvent::InvoicePaid => "invoice.paid"@,
        WebhookEvent::InvoicePaymentFailed => "invoice.payment_failed"@,
    }
}

impl WebhookEvent {
    /// The name of this event.
    pub fn name(&self) -> (r: String)
        ensures
            r@ == event_name(*self),
    {
        match self {
            WebhookEvent::InvoiceCreated => owned("invoice.created"),
            WebhookEvent::InvoicePaid => owned("invoice.paid"),
            WebhookEvent::InvoicePaymentFailed => owned("invoice.payment_failed"),
        }
    }
}

/// The JSON text of an event as it is queued: an object with the event data, the event
/// name and the time, keys in sorted order. `data` is the JSON text of the data and
/// `timestamp` the time as RFC 3339 text.
pub open spec fn envelope_text(event: WebhookEvent, timestamp: Seq<char>, data: Seq<char>) -> Seq<
    char,
> {
    "{\"data\":"@ + data + ",\"event\":\""@ + event_name(event) + "\",\"timestamp\":\""@
        + timestamp + "\"}"@
}

/// Frames the JSON text of an event around its data.
pub fn event_envelope(event: WebhookEvent, timestamp: &str, data: &str) -> (r: String)
    ensures
        r@ == envelope_text(event, timestamp@, data@),
{
    let mut r = owned("{\"data\":");
    r.append(data);
    r.append(",\"event\":\"");
    let name = event.name();
    r.append(name.as_str());
    r.append("\",\"timestamp\":\"");
    r.append(timestamp);
    r.append("\"}");
    r
}

// ---------------------------------------------------------------------------
// Endpoints and queued deliveries
// ---------------------------------------------------------------------------

/// An endpoint about to be stored: a fresh id and a fresh secret.
#[derive(Debug)]
pub struct NewEndpoint {
    pub id: String,
    pub business_id: String,
    pub target_url: String,
    pub secret: String,
}

/// A new endpoint of `business_id` at `target_url`. Its secret is the lower-case hex text
/// of sixteen random bytes (32 characters).
pub fn register_endpoint(business_id: &str, target_url: &str) -> (r: NewEndpoint)
    ensures
        r.id@.len() == 26,
        r.business_id@ == business_id@,
        r.target_url@ == target_url@,
        exists|b: Seq<u8>| b.len() == 16 && r.secret@ == hex_lower(b),
        r.secret@.len() == 32,
{
    let bytes = random_bytes_16();
    let secret = hex_encode(bytes.as_slice());
    proof {
        lemma_hex_lower_shape(bytes@);
    }
    NewEndpoint {
        id: new_ulid(),
        business_id: owned(business_id),
        target_url: owned(target_url),
        secret,
    }
}

/// A delivery about to be stored (pending, no attempts yet).
#[derive(Debug)]
pub struct NewDelivery {
    pub id: String,
    pub webhook_endpoint_id: String,
    pub event_type: String,
    pub payload: String,
}

/// The endpoints that receive events: the active ones, in order.
pub open spec fn active_endpoints(endpoints: Seq<WebhookEndpoint>) -> Seq<WebhookEndpoint> {
    endpoints.filter(|e: WebhookEndpoint| e.is_active)
}

/// Filtering a sequence extended by one element.
proof fn lemma_active_push(endpoints: Seq<WebhookEndpoint>, e: WebhookEndpoint)
    ensures
        e.is_active ==> active_endpoints(endpoints.push(e)) == active_endpoints(endpoints).push(e),
        !e.is_active ==> active_endpoints(endpoints.push(e)) == active_endpoints(endpoints),
{
    reveal(Seq::filter);
    assert(endpoints.push(e).drop_last() =~= endpoints);
}

/// The deliveries that announcing `event` at `timestamp` (RFC 3339 text) with data of
/// JSON text `data` queues for a business with the given endpoints: one per active
/// endpoint, in order, each with a fresh id and the event framed as JSON
/// (`envelope_text`); deactivated endpoints receive nothing.
pub fn queue_webhook(
    endpoints: &Vec<WebhookEndpoint>,
    event: WebhookEvent,
    timestamp: &str,
    data: &str,
) -> (r: Vec<NewDelivery>)
    ensures
        r@.len() == active_endpoints(endpoints@).len(),
        forall|i: int|
            #![trigger r@[i]]
            0 <= i < r@.len() ==> {
                &&& r@[i].id@.len() == 26
                &&& r@[i].webhook_endpoint_id@ == active_endpoints(endpoints@)[i].id@
                &&& r@[i].event_type@ == event_name(event)
                &&& r@[i].payload@ == envelope_text(event, timestamp@, data@)
            },
{
    let payload = event_envelope(event, timestamp, data);
    let mut r: Vec<NewDelivery> = Vec::new();
    let n = endpoints.len();
    let mut i: usize = 0;
    proof {
        reveal(Seq::filter);
        assert(endpoints@.take(0).len() == 0);
    }
    while i < n
        invariant
            n == endpoints@.len(),
            i <= n,
            payload@ == envelope_text(event, timestamp@, data@),
            r@.len() == active_endpoints(endpoints@.take(i as int)).len(),
            forall|k: int|
                #![trigger r@[k]]
                0 <= k < r@.len() ==> {
                    &&& r@[k].id@.len() == 26
                    &&& r@[k].webhook_endpoint_id@ == active_endpoints(endpoints@.take(i as int))[k].id@
                    &&& r@[k].event_type@ == event_name(event)
                    &&& r@[k].payload@ == envelope_text(event, timestamp@, data@)
                },
        decreases n - i,
    {
        proof {
            assert(endpoints@.take(i + 1) =~= endpoints@.take(i as int).push(endpoints@[i as int]));
            lemma_active_push(endpoints@.take(i as int), endpoints@[i as int]);
        }
        if endpoints[i].is_active {
            let d = NewDelivery {
                id: new_ulid(),
                webhook_endpoint_id: owned(endpoints[i].id.as_str()),
                event_type: event.name(),
                payload: owned(payload.as_str()),
            };
            r.push(d);
        }
        i = i + 1;
    }
    assert(endpoints@.take(n as int) =~= endpoints@);
    r
}

// ---------------------------------------------------------------------------
// Delivering
// ---------------------------------------------------------------------------

/// Only a pending delivery is attempted; delivered and failed ones are left alone.
pub fn needs_delivery(state: DeliveryState) -> (r: bool)
    ensures
        r == (state == DeliveryState::Pending),
{
    state == DeliveryState::Pending
}

/// The value of the signature header for a body sent with an endpoint secret:
/// `sha256=` followed by the lower-case hex HMAC-SHA256 of the body's UTF-8 bytes under
/// the secret's UTF-8 bytes.
pub open spec fn signature_text(secret: Seq<char>, body: Seq<char>) -> Seq<char> {
    "sha256="@ + hex_lower(hmac_sha256_tag(encode_utf8(secret), encode_utf8(body)))
}

/// The signature is keyed by the UTF-8 bytes of the whole secret and covers the UTF-8
/// bytes of the whole body: it is the HMAC-SHA256 tag under exactly that key, in hex.
pub proof fn lemma_signature_keyed_by_whole_secret(secret: Seq<char>, body: Seq<char>)
    ensures
        signature_text(secret, body) == "sha256="@ + hex_lower(
            hmac_sha256_tag(encode_utf8(secret), encode_utf8(body)),
        ),
        signature_text(secret, body).subrange(7, signature_text(secret, body).len() as int)
            == hex_lower(hmac_sha256_tag(encode_utf8(secret), encode_utf8(body))),
{
    reveal_strlit("sha256=");
    let t = hex_lower(hmac_sha256_tag(encode_utf8(secret), encode_utf8(body)));
    assert(("sha256="@ + t).subrange(7, ("sha256="@ + t).len() as int) =~= t);
}

/// Computes the signature header value for `payload` under `secret`.
pub fn signature_header(secret: &str, payload: &str) -> (r: String)
    ensures
        r@ == signature_text(secret@, payload@),
        r@ == "sha256="@ + hex_lower(hmac_sha256_tag(encode_utf8(secret@), encode_utf8(payload@))),
        r@.len() == 71,
{
    let tag = hmac_sha256(secret.as_bytes(), payload.as_bytes());
    let hex = hex_encode(tag.as_slice());
    proof {
        lemma_hex_lower_shape(tag@);
        reveal_strlit("sha256=");
    }
    joined("sha256=", hex.as_str())
}

/// The HTTP request that delivers an event: POST `body` to `target_url` with the
/// signature and event headers.
#[derive(Debug)]
pub struct DeliveryRequest {
    pub target_url: String,
    pub signature: String,
    pub event_type: String,
    pub body: String,
}

/// The request that delivers `delivery` to `endpoint`: the stored payload, signed with
/// the endpoint's secret.
pub fn delivery_request(delivery: &WebhookDelivery, endpoint: &WebhookEndpoint) -> (r: DeliveryRequest)
    ensures
        r.target_url@ == endpoint.target_url@,
        r.body@ == delivery.payload@,
        r.event_type@ == delivery.event_type@,
        r.signature@ == signature_text(endpoint.secret@, r.body@),
        r.signature@ == "sha256="@ + hex_lower(
            hmac_sha256_tag(encode_utf8(endpoint.secret@), encode_utf8(delivery.payload@)),
        ),
{
    DeliveryRequest {
        target_url: owned(endpoint.target_url.as_str()),
        signature: signature_header(endpoint.secret.as_str(), delivery.payload.as_str()),
        event_type: owned(delivery.event_type.as_str()),
        body: owned(delivery.payload.as_str()),
    }
}

/// How the endpoint answered a delivery.
#[derive(Debug)]
pub enum DeliveryOutcome {
    /// A 2xx answer with this status.
    Accepted(u16),
    /// Any other answer, or none.
    NotAccepted,
}

/// How a delivery is recorded after an attempt.
#[derive(Debug)]
pub enum DeliveryUpdate {
    /// Delivered, with the endpoint's HTTP status.
    Delivered { http_status: i32 },
    /// Failed for good after `attempt_count` attempts.
    GaveUp { attempt_count: i32 },
    /// Still pending, after `attempt_count` attempts; try again at `next_retry_at`.
    Retry { attempt_count: i32, next_retry_at: i64 },
}

/// Attempts are made at most this many times.
pub const MAX_DELIVERY_ATTEMPTS: i32 = 5;

/// The wait in seconds before attempt `failures + 1`, after `failures` failed ones:
/// 30 s, 5 min, 30 min, 2 h.
pub open spec fn retry_delay_seconds(failures: int) -> int {
    if failures == 1 {
        30
    } else if failures == 2 {
        300
    } else if failures == 3 {
        1800
    } else if failures == 4 {
        7200
    } else {
        0
    }
}

/// The wait before the next attempt, in seconds, after `failures` failed attempts.
pub fn retry_delay(failures: i32) -> (r: i64)
    ensures
        r == retry_delay_seconds(failures as int),
{
    if failures == 1 {
        30
    } else if failures == 2 {
        300
    } else if failures == 3 {
        1800
    } else if failures == 4 {
        7200
    } else {
        0
    }
}

/// Microseconds in a second.
pub const MICROS_PER_SECOND: i64 = 1_000_000;

/// The record of a failed attempt after `attempt_count` earlier ones, at time `now`.
pub open spec fn update_after_failure(attempt_count: int, now: int) -> DeliveryUpdate {
    let next = attempt_count + 1;
    if next >= MAX_DELIVERY_ATTEMPTS {
        DeliveryUpdate::GaveUp { attempt_count: next as i32 }
    } else {
        DeliveryUpdate::Retry {
            attempt_count: next as i32,
            next_retry_at: (now + retry_delay_seconds(next) * MICROS_PER_SECOND) as i64,
        }
    }
}

/// How an attempt is recorded: delivered with the endpoint's status on a 2xx answer,
/// else as a failure.
pub open spec fn recorded_update(attempt_count: int, outcome: DeliveryOutcome, now: int) -> DeliveryUpdate {
    match outcome {
        DeliveryOutcome::Accepted(status) => DeliveryUpdate::Delivered { http_status: status as i32 },
        DeliveryOutcome::NotAccepted => update_after_failure(attempt_count, now),
    }
}

/// The record of an attempt of a delivery that had `attempt_count` earlier attempts, at
/// time `now` (microseconds since the epoch). A 2xx answer delivers it. Otherwise the
/// count goes up by one; at five attempts the delivery fails for good, else the next
/// attempt waits 30 s, 5 min, 30 min or 2 h after the first, second, third or fourth
/// failure.
pub fn record_delivery_attempt(attempt_count: i32, outcome: DeliveryOutcome, now: i64) -> (r:
    DeliveryUpdate)
    requires
        outcome is NotAccepted ==> attempt_count < i32::MAX,
        outcome is NotAccepted ==> now <= i64::MAX - 7200 * MICROS_PER_SECOND,
    ensures
        r == recorded_update(attempt_count as int, outcome, now as int),
{
    match outcome {
        DeliveryOutcome::Accepted(status) => DeliveryUpdate::Delivered { http_status: status as i32 },
        DeliveryOutcome::NotAccepted => {
            let next = attempt_count + 1;
            if next >= MAX_DELIVERY_ATTEMPTS {
                DeliveryUpdate::GaveUp { attempt_count: next }
            } else {
                let delay = retry_delay(next);
                DeliveryUpdate::Retry {
                    attempt_count: next,
                    next_retry_at: now + delay * MICROS_PER_SECOND,
                }
            }
        },
    }
}

/// What the delivery step of an event to an endpoint learns.
#[derive(Debug)]
pub enum DeliveryEvent {
    /// The delivery was read.
    Loaded,
    /// The endpoint that the delivery goes to (the one with its endpoint id) was read.
    EndpointFound(WebhookEndpoint),
    /// The endpoint answered (or did not), at `now` (microseconds since the epoch).
    Answered { outcome: DeliveryOutcome, now: i64 },
}

/// What the delivery step does next.
#[derive(Debug)]
pub enum DeliveryAction {
    /// Nothing: the delivery is delivered or failed already.
    LeaveAlone,
    /// Read the endpoint with this id.
    FetchEndpoint(String),
    /// Send this signed request to the endpoint.
    Send(DeliveryRequest),
    /// Record this update of the delivery.
    Record(DeliveryUpdate),
}

/// One step of delivering `delivery`. A delivery that is delivered or failed is left
/// alone, whatever happens. A pending one, once read, asks for its endpoint; with the
/// endpoint, it sends the stored payload signed with the endpoint's secret; with the
/// answer, it records it: delivered with the status on a 2xx answer, else one more
/// attempt, failed for good at five, otherwise retried after 30 s, 5 min, 30 min or 2 h.
pub fn deliver_webhook(delivery: &WebhookDelivery, event: DeliveryEvent) -> (r: DeliveryAction)
    requires
        event matches DeliveryEvent::EndpointFound(endpoint) ==> endpoint.id@
            == delivery.webhook_endpoint_id@,
        event matches DeliveryEvent::Answered { outcome, now } ==> (delivery.state
            == DeliveryState::Pending && outcome is NotAccepted ==> (delivery.attempt_count
            < i32::MAX && now <= i64::MAX - 7200 * MICROS_PER_SECOND)),
    ensures
        delivery.state != DeliveryState::Pending ==> r is LeaveAlone,
        delivery.state == DeliveryState::Pending ==> match event {
            DeliveryEvent::Loaded => r matches DeliveryAction::FetchEndpoint(id) && id@
                == delivery.webhook_endpoint_id@,
            DeliveryEvent::EndpointFound(endpoint) => r matches DeliveryAction::Send(req) && {
                &&& req.target_url@ == endpoint.target_url@
                &&& req.body@ == delivery.payload@
                &&& req.event_type@ == delivery.event_type@
                &&& req.signature@ == signature_text(endpoint.secret@, delivery.payload@)
                &&& req.signature@ == "sha256="@ + hex_lower(
                    hmac_sha256_tag(encode_utf8(endpoint.secret@), encode_utf8(delivery.payload@)),
                )
            },
            DeliveryEvent::Answered { outcome, now } => r == DeliveryAction::Record(
                recorded_update(delivery.attempt_count as int, outcome, now as int),
            ),
        },
{
    if !needs_delivery(delivery.state) {
        return DeliveryAction::LeaveAlone;
    }
    match event {
        DeliveryEvent::Loaded => DeliveryAction::FetchEndpoint(
            owned(delivery.webhook_endpoint_id.as_str()),
        ),
        DeliveryEvent::EndpointFound(endpoint) => DeliveryAction::Send(
            delivery_request(delivery, &endpoint),
        ),
        DeliveryEvent::Answered { outcome, now } => DeliveryAction::Record(
            record_delivery_attempt(delivery.attempt_count, outcome, now),
        ),
    }
}

/// The state and attempt count of a delivery after an update is recorded.
pub open spec fn apply_update(state: DeliveryState, attempt_count: int, u: DeliveryUpdate) -> (
    DeliveryState,
    int,
) {
    match u {
        DeliveryUpdate::Delivered { .. } => (DeliveryState::Delivered, attempt_count),
        DeliveryUpdate::GaveUp { attempt_count: c } => (DeliveryState::Failed, c as int),
        DeliveryUpdate::Retry { attempt_count: c, .. } => (DeliveryState::Pending, c as int),
    }
}

/// The state, the attempt count and the number of requests sent after a run of
/// delivery steps, one per answer in `outcomes`: a pending delivery sends a request and
/// records its answer; a delivered or failed one does nothing.
pub open spec fn delivery_run(
    state: DeliveryState,
    attempt_count: int,
    outcomes: Seq<DeliveryOutcome>,
    now: int,
) -> (DeliveryState, int, nat)
    decreases outcomes.len(),
{
    if outcomes.len() == 0 || state != DeliveryState::Pending {
        (state, attempt_count, 0)
    } else {
        let next = apply_update(state, attempt_count, recorded_update(attempt_count, outcomes[0], now));
        let rest = delivery_run(next.0, next.1, outcomes.drop_first(), now);
        (rest.0, rest.1, rest.2 + 1)
    }
}

/// However the endpoint answers, a pending delivery with `c` (at most four) earlier
/// attempts sends at most `5 - c` more requests and never counts more than five
/// attempts, and after `5 - c` runs it is delivered or failed; a delivered or failed
/// delivery is never changed and sends nothing.
pub proof fn lemma_delivery_run_bounded(
    state: DeliveryState,
    c: int,
    outcomes: Seq<DeliveryOutcome>,
    now: int,
)
    requires
        state == DeliveryState::Pending ==> 0 <= c <= 4,
    ensures
        state != DeliveryState::Pending ==> delivery_run(state, c, outcomes, now) == (state, c, 0nat),
        state == DeliveryState::Pending ==> {
            let r = delivery_run(state, c, outcomes, now);
            &&& r.2 <= 5 - c
            &&& r.1 <= 5
            &&& outcomes.len() >= 5 - c ==> r.0 != DeliveryState::Pending
        },
    decreases outcomes.len(),
{
    if state == DeliveryState::Pending && outcomes.len() > 0 {
        let u = recorded_update(c, outcomes[0], now);
        let next = apply_update(state, c, u);
        match outcomes[0] {
            DeliveryOutcome::Accepted(_) => {
                assert(next.0 == DeliveryState::Delivered);
            },
            DeliveryOutcome::NotAccepted => {
                if c + 1 >= 5 {
                    assert(next == (DeliveryState::Failed, 5int));
                } else {
                    assert(next == (DeliveryState::Pending, c + 1));
                }
            },
        }
        lemma_delivery_run_bounded(next.0, next.1, outcomes.drop_first(), now);
    }
}

/// A delivery that keeps failing is retried after its first four failures, each time
/// with a longer wait, and fails for good at the fifth: no delivery is attempted more
/// than five times.
pub proof fn lemma_delivery_attempts_bounded(now: int)
    ensures
        forall|c: int|
            #![trigger update_after_failure(c, now)]
            0 <= c < 4 ==> (update_after_failure(c, now) matches DeliveryUpdate::Retry {
                attempt_count,
                next_retry_at,
            } && attempt_count == c + 1),
        forall|c: int|
            #![trigger update_after_failure(c, now)]
            4 <= c < i32::MAX ==> (update_after_failure(c, now) matches DeliveryUpdate::GaveUp {
                attempt_count,
            } && attempt_count == c + 1),
        update_after_failure(4, now) == (DeliveryUpdate::GaveUp { attempt_count: 5 }),
        0 < retry_delay_seconds(1) < retry_delay_seconds(2) < retry_delay_seconds(3)
            < retry_delay_seconds(4),
{
}

} // verus!
