use vstd::prelude::*;
use crate::errors::AppError;
use crate::text::owned;

verus! {

/// A request to pay an invoice with a card token.
#[derive(Debug)]
pub struct PayInvoiceRequest {
    pub card_token: String,
}

/// The idempotency key of a payment request, read from its `Idempotency-Key` header; a
/// missing (or unreadable) header is a validation error.
pub fn idempotency_key(header: Option<&str>) -> (r: Result<String, AppError>)
    ensures
        header matches Some(h) ==> (r matches Ok(k) && k@ == h@),
        header is None ==> (r matches Err(AppError::ValidationError(m)) && m@
            == "Missing Idempotency-Key header"@),
{
    match header {
        Some(h) => Ok(owned(h)),
        None => Err(AppError::ValidationError(owned("Missing Idempotency-Key header"))),
    }
}

} // verus!
