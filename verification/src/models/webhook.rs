use vstd::prelude::*;
use crate::text::{owned, text_eq};

verus! {

/// A URL that a business has registered to receive events.
/// Timestamps are microseconds since the Unix epoch.
#[derive(Debug)]
pub struct WebhookEndpoint {
    pub id: String,
    pub business_id: String,
    pub target_url: String,
    pub secret: String,
    pub is_active: bool,
    pub created_at: i64,
    pub updated_at: i64,
}

/// The state of the delivery of one event to one endpoint.
#[derive(PartialEq, Eq, Structural, Clone, Copy, Debug)]
pub enum DeliveryState {
    Pending,
    Delivered,
    Failed,
}

/// The name under which a delivery state is stored.
pub open spec fn delivery_state_name(s: DeliveryState) -> Seq<char> {
    match s {
        DeliveryState::Pending => "pending"@,
        DeliveryState::Delivered => "delivered"@,
        DeliveryState::Failed => "failed"@,
    }
}

/// The delivery state that a stored name denotes, if any.
pub open spec fn delivery_state_from_name(name: Seq<char>) -> Option<DeliveryState> {
    if name == "pending"@ {
        Some(DeliveryState::Pending)
    } else if name == "delivered"@ {
        Some(DeliveryState::Delivered)
    } else if name == "failed"@ {
        Some(DeliveryState::Failed)
    } else {
        None
    }
}

impl DeliveryState {
    /// The stored name of this state.
    pub fn name(&self) -> (r: String)
        ensures
            r@ == delivery_state_name(*self),
    {
        match self {
            DeliveryState::Pending => owned("pending"),
            DeliveryState::Delivered => owned("delivered"),
            DeliveryState::Failed => owned("failed"),
        }
    }

    /// Reads a stored delivery state name.
    pub fn parse(name: &str) -> (r: Option<DeliveryState>)
        ensures
            r == delivery_state_from_name(name@),
    {
        if text_eq(name, "pending") {
            Some(DeliveryState::Pending)
        } else if text_eq(name, "delivered") {
            Some(DeliveryState::Delivered)
        } else if text_eq(name, "failed") {
            Some(DeliveryState::Failed)
        } else {
            None
        }
    }
}

/// The delivery of one event to one endpoint, as stored. `payload` is the JSON text
/// of the event; timestamps are microseconds since the Unix epoch.
#[derive(Debug)]
pub struct WebhookDelivery {
    pub id: String,
    pub webhook_endpoint_id: String,
    pub event_type: String,
    pub payload: String,
    pub state: DeliveryState,
    pub attempt_count: i32,
    pub next_retry_at: i64,
    pub last_http_status: Option<i32>,
    pub last_error: Option<String>,
    pub created_at: i64,
    pub updated_at: i64,
}

} // verus!
