use vstd::prelude::*;
use crate::crypto::hex_lower;
use crate::services::webhook_service::{register_endpoint, NewEndpoint};

verus! {

/// A request to register a webhook endpoint for the caller's business.
#[derive(Debug)]
pub struct RegisterWebhookRequest {
    pub target_url: String,
}

/// The endpoint that a registration request adds to `business_id`; see
/// `webhook_service::register_endpoint`.
pub fn register_webhook(business_id: &str, request: &RegisterWebhookRequest) -> (r: NewEndpoint)
    ensures
        r.id@.len() == 26,
        r.business_id@ == business_id@,
        r.target_url@ == request.target_url@,
        exists|b: Seq<u8>| b.len() == 16 && r.secret@ == hex_lower(b),
{
    register_endpoint(business_id, request.target_url.as_str())
}

} // verus!
