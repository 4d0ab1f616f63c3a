use vstd::prelude::*;
use crate::text::{owned, text_eq};

verus! {

/// The state of one attempt to charge a card for an invoice.
#[derive(PartialEq, Eq, Structural, Clone, Copy, Debug)]
pub enum PaymentState {
    Pending,
    Succeeded,
    Failed,
}

/// The name under which a payment state is stored and reported.
pub open spec fn payment_state_name(s: PaymentState) -> Seq<char> {
    match s {
        PaymentState::Pending => "pending"@,
        PaymentState::Succeeded => "succeeded"@,
        PaymentState::Failed => "failed"@,
    }
}

/// The payment state that a stored name denotes, if any.
pub open spec fn payment_state_from_name(name: Seq<char>) -> Option<PaymentState> {
    if name == "pending"@ {
        Some(PaymentState::Pending)
    } else if name == "succeeded"@ {
        Some(PaymentState::Succeeded)
    } else if name == "failed"@ {
        Some(PaymentState::Failed)
    } else {
        None
    }
}

impl PaymentState {
    /// The stored name of this state.
    pub fn name(&self) -> (r: String)
        ensures
            r@ == payment_state_name(*self),
    {
        match self {
            PaymentState::Pending => owned("pending"),
            PaymentState::Succeeded => owned("succeeded"),
            PaymentState::Failed => owned("failed"),
        }
    }

    /// Reads a stored payment state name.
    pub fn parse(name: &str) -> (r: Option<PaymentState>)
        ensures
            r == payment_state_from_name(name@),
    {
        if text_eq(name, "pending") {
            Some(PaymentState::Pending)
        } else if text_eq(name, "succeeded") {
            Some(PaymentState::Succeeded)
        } else if text_eq(name, "failed") {
            Some(PaymentState::Failed)
        } else {
            None
        }
    }
}

/// One attempt to charge a card for an invoice, as stored.
/// Timestamps are microseconds since the Unix epoch.
#[derive(Debug)]
pub struct PaymentAttempt {
    pub id: String,
    pub invoice_id: String,
    pub idempotency_key: String,
    pub card_token: String,
    pub amount_cents: i64,
    pub currency: String,
    pub state: PaymentState,
    pub psp_reference_id: Option<String>,
    pub error_message: Option<String>,
    pub created_at: i64,
    pub updated_at: i64,
}

} // verus!
