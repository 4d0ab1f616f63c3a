use vstd::prelude::*;
use crate::entropy::{new_ulid, now_micros};
use crate::errors::AppError;
use crate::models::invoice::{invoice_state_name, Invoice, InvoiceState};
use crate::models::payment_attempt::{PaymentAttempt, PaymentState};
use crate::services::invoice_service::transition_allowed;
use crate::services::webhook_service::WebhookEvent;
use crate::text::{joined, owned, text_eq};

verus! {

/// The charge that is sent to the card processor.
#[derive(Debug)]
pub struct PspRequest {
    pub token: String,
    pub amount_cents: i64,
}

/// The body of a successful (2xx) answer of the card processor.
#[derive(Debug)]
pub struct PspResponse {
    pub status: String,
    pub psp_ref: Option<String>,
    pub code: Option<String>,
}

/// What came back from the card processor.
#[derive(Debug)]
pub enum PspReply {
    /// A 2xx answer with its body.
    Answered(PspResponse),
    /// A 2xx answer whose body could not be read; the client's message.
    Unreadable(String),
    /// An answer with another status; the status as the HTTP client prints it.
    Rejected(String),
    /// No answer in time.
    TimedOut,
    /// Any other transport failure; the client's message.
    NetworkError(String),
}

/// What a request to pay an invoice leads to before the card is charged.
#[derive(Debug)]
pub enum PaymentStart {
    /// An attempt with the same idempotency key exists: it is the answer, unchanged.
    Replay(PaymentAttempt),
    /// The request is refused with this error.
    Refused(AppError),
    /// Store `attempt` (pending) and send `request` to the card processor.
    Charge { attempt: PaymentAttempt, request: PspRequest },
}

/// An invoice may be charged only when it is open.
pub open spec fn charge_allowed(invoice: Option<&Invoice>) -> bool {
    invoice matches Some(inv) && inv.state == InvoiceState::Open
}

/// The first step of paying invoice `invoice_id`: `existing` is the attempt already
/// stored under `idempotency_key`, if any, and `invoice` the invoice looked up for the
/// caller's business, if any.
///
/// An existing attempt is returned as it is, whatever the invoice. Otherwise a missing
/// invoice is `NotFound`, an invoice that is not open is `InvalidTransition` from its
/// state to `paid`, and an open invoice is charged its total in its currency, through a
/// new pending attempt that records the key and the card token.
pub fn begin_payment(
    existing: Option<PaymentAttempt>,
    invoice: Option<&Invoice>,
    invoice_id: &str,
    card_token: &str,
    idempotency_key: &str,
) -> (r: PaymentStart)
    ensures
        existing matches Some(a) ==> r == PaymentStart::Replay(a),
        existing is None && invoice is None ==> (r matches PaymentStart::Refused(
            AppError::NotFound(m),
        ) && m@ == "Invoice not found"@),
        existing is None && (invoice matches Some(inv) && inv.state != InvoiceState::Open) ==> (r matches PaymentStart::Refused(
            AppError::InvalidTransition { from, to },
        ) && from@ == invoice_state_name(invoice->0.state) && to@ == "paid"@),
        existing is None && (invoice matches Some(inv) && inv.state == InvoiceState::Open) ==> (r is Charge),
        existing is None && invoice is Some && !charge_allowed(invoice) ==> (r matches PaymentStart::Refused(
            AppError::InvalidTransition { from, to },
        ) && from@ == invoice_state_name(invoice->0.state) && to@ == "paid"@),
        existing is None && charge_allowed(invoice) ==> (r matches PaymentStart::Charge {
            attempt,
            request,
        } && {
            let inv = invoice->0;
            &&& attempt.id@.len() == 26
            &&& attempt.invoice_id@ == invoice_id@
            &&& attempt.idempotency_key@ == idempotency_key@
            &&& attempt.card_token@ == card_token@
            &&& attempt.amount_cents == inv.total_cents
            &&& attempt.currency == inv.currency
            &&& attempt.state == PaymentState::Pending
            &&& attempt.psp_reference_id is None
            &&& attempt.error_message is None
            &&& attempt.created_at == attempt.updated_at
            &&& request.token@ == card_token@
            &&& request.amount_cents == inv.total_cents
        }),
{
    if let Some(a) = existing {
        return PaymentStart::Replay(a);
    }
    match invoice {
        None => PaymentStart::Refused(AppError::NotFound(owned("Invoice not found"))),
        Some(inv) => {
            if inv.state != InvoiceState::Open {
                return PaymentStart::Refused(
                    AppError::InvalidTransition { from: inv.state.name(), to: owned("paid") },
                );
            }
            let now = now_micros();
            let attempt = PaymentAttempt {
                id: new_ulid(),
                invoice_id: owned(invoice_id),
                idempotency_key: owned(idempotency_key),
                card_token: owned(card_token),
                amount_cents: inv.total_cents,
                currency: inv.currency.clone(),
                state: PaymentState::Pending,
                psp_reference_id: None,
                error_message: None,
                created_at: now,
                updated_at: now,
            };
            let request = PspRequest { token: owned(card_token), amount_cents: inv.total_cents };
            PaymentStart::Charge { attempt, request }
        },
    }
}

/// How a charge ended, as it is recorded on the attempt.
#[derive(Debug)]
pub struct PaymentSettlement {
    pub state: PaymentState,
    pub psp_reference_id: Option<String>,
    pub error_message: Option<String>,
}

/// The state that an attempt takes for a reply of the card processor, or `None` where
/// the reply cannot be read.
pub open spec fn settled_state(reply: PspReply) -> Option<PaymentState> {
    match reply {
        PspReply::Answered(body) => if body.status@ == "succeeded"@ {
            Some(PaymentState::Succeeded)
        } else {
            Some(PaymentState::Failed)
        },
        PspReply::Unreadable(_) => None,
        PspReply::Rejected(_) => Some(PaymentState::Failed),
        PspReply::TimedOut => Some(PaymentState::Pending),
        PspReply::NetworkError(_) => Some(PaymentState::Failed),
    }
}

/// An optional text, by its view.
pub open spec fn opt_view(s: Option<String>) -> Option<Seq<char>> {
    match s {
        Some(t) => Some(t@),
        None => None,
    }
}

/// How a charge ended for a reply of the card processor. A 2xx answer with status
/// `succeeded` succeeds with the processor's reference; another status fails with the
/// reference and the code of the answer; another HTTP status fails with `PSP Error: `
/// and the status; a timeout leaves the attempt pending with `psp_timeout`; a transport
/// failure fails with `Network Error: ` and the message. An unreadable body is an
/// internal error.
pub fn settle_payment(reply: PspReply) -> (r: Result<PaymentSettlement, AppError>)
    ensures
        r is Ok <==> settled_state(reply) is Some,
        r matches Ok(s) ==> Some(s.state) == settled_state(reply),
        reply matches PspReply::Answered(body) ==> (r matches Ok(s) && opt_view(s.psp_reference_id)
            == opt_view(body.psp_ref) && (if body.status@ == "succeeded"@ {
            s.error_message is None
        } else {
            opt_view(s.error_message) == opt_view(body.code)
        })),
        reply matches PspReply::Unreadable(m) ==> (r matches Err(AppError::Internal(e)) && e@ == m@),
        reply matches PspReply::Rejected(status) ==> (r matches Ok(s) && s.psp_reference_id is None
            && opt_view(s.error_message) == Some("PSP Error: "@ + status@)),
        reply is TimedOut ==> (r matches Ok(s) && s.psp_reference_id is None && opt_view(
            s.error_message,
        ) == Some("psp_timeout"@)),
        reply matches PspReply::NetworkError(m) ==> (r matches Ok(s) && s.psp_reference_id is None
            && opt_view(s.error_message) == Some("Network Error: "@ + m@)),
{
    match reply {
        PspReply::Answered(body) => {
            if text_eq(body.status.as_str(), "succeeded") {
                Ok(
                    PaymentSettlement {
                        state: PaymentState::Succeeded,
                        psp_reference_id: body.psp_ref,
                        error_message: None,
                    },
                )
            } else {
                Ok(
                    PaymentSettlement {
                        state: PaymentState::Failed,
                        psp_reference_id: body.psp_ref,
                        error_message: body.code,
                    },
                )
            }
        },
        PspReply::Unreadable(m) => Err(AppError::Internal(m)),
        PspReply::Rejected(status) => Ok(
            PaymentSettlement {
                state: PaymentState::Failed,
                psp_reference_id: None,
                error_message: Some(joined("PSP Error: ", status.as_str())),
            },
        ),
        PspReply::TimedOut => Ok(
            PaymentSettlement {
                state: PaymentState::Pending,
                psp_reference_id: None,
                error_message: Some(owned("psp_timeout")),
            },
        ),
        PspReply::NetworkError(m) => Ok(
            PaymentSettlement {
                state: PaymentState::Failed,
                psp_reference_id: None,
                error_message: Some(joined("Network Error: ", m.as_str())),
            },
        ),
    }
}

/// The state that the paid-for invoice moves to when an attempt settles: `paid` on
/// success; otherwise it keeps its state.
pub open spec fn invoice_state_after(state: PaymentState) -> Option<InvoiceState> {
    if state == PaymentState::Succeeded {
        Some(InvoiceState::Paid)
    } else {
        None
    }
}

/// The new state of the invoice when an attempt settles in `state`, if it changes.
pub fn invoice_state_after_payment(state: PaymentState) -> (r: Option<InvoiceState>)
    ensures
        r == invoice_state_after(state),
{
    if state == PaymentState::Succeeded {
        Some(InvoiceState::Paid)
    } else {
        None
    }
}

/// What the data of a payment event is: the invoice that was paid for, or the attempt.
#[derive(PartialEq, Eq, Structural, Clone, Copy, Debug)]
pub enum EventSubject {
    Invoice,
    Attempt,
}

/// The event announced when an attempt settles in a given state, if any, with its subject.
pub open spec fn payment_event_for(state: PaymentState) -> Option<(WebhookEvent, EventSubject)> {
    match state {
        PaymentState::Succeeded => Some((WebhookEvent::InvoicePaid, EventSubject::Invoice)),
        PaymentState::Failed => Some((WebhookEvent::InvoicePaymentFailed, EventSubject::Attempt)),
        PaymentState::Pending => None,
    }
}

/// The event announced when an attempt settles: `invoice.paid` with the invoice on
/// success, `invoice.payment_failed` with the attempt on failure, none while pending.
pub fn payment_event(state: PaymentState) -> (r: Option<(WebhookEvent, EventSubject)>)
    ensures
        r == payment_event_for(state),
{
    match state {
        PaymentState::Succeeded => Some((WebhookEvent::InvoicePaid, EventSubject::Invoice)),
        PaymentState::Failed => Some((WebhookEvent::InvoicePaymentFailed, EventSubject::Attempt)),
        PaymentState::Pending => None,
    }
}

/// An HTTP status in the 2xx range.
pub open spec fn is_success_status(code: u16) -> bool {
    200 <= code < 300
}

/// Whether an HTTP status is a success (2xx), as the card processor's and the webhook
/// endpoints' answers are judged.
pub fn success_status(code: u16) -> (r: bool)
    ensures
        r == is_success_status(code),
        r <==> (200 <= code && code < 300),
{
    200 <= code && code < 300
}

/// Only an open invoice may be charged: a draft, paid, void or uncollectible one never is.
pub proof fn lemma_only_open_invoices_are_charged(invoice: Invoice)
    ensures
        charge_allowed(Some(&invoice)) <==> invoice.state == InvoiceState::Open,
        invoice.state == InvoiceState::Void ==> !charge_allowed(Some(&invoice)),
        invoice.state == InvoiceState::Draft ==> !charge_allowed(Some(&invoice)),
        invoice.state == InvoiceState::Paid ==> !charge_allowed(Some(&invoice)),
        invoice.state == InvoiceState::Uncollectible ==> !charge_allowed(Some(&invoice)),
        !charge_allowed(None),
{
}

/// Exactly the statuses 200 to 299 are successes, 2xx answers such as 202 among them.
pub proof fn lemma_success_statuses_are_2xx(code: u16)
    ensures
        is_success_status(code) <==> (200 <= code && code <= 299),
        code == 200 || code == 201 || code == 202 || code == 204 ==> is_success_status(code),
        code < 200 || code >= 300 ==> !is_success_status(code),
{
}

/// A successful charge pays the invoice (a move the life cycle allows from open), and a
/// paid invoice is refused any further charge: an invoice is paid at most once.
pub proof fn lemma_invoice_paid_at_most_once(reply: PspReply, invoice: Invoice)
    requires
        settled_state(reply) == Some(PaymentState::Succeeded),
        invoice.state == InvoiceState::Open,
    ensures
        invoice_state_after(PaymentState::Succeeded) == Some(InvoiceState::Paid),
        transition_allowed(invoice.state, InvoiceState::Paid),
        !charge_allowed(Some(&Invoice { state: InvoiceState::Paid, ..invoice })),
        payment_event_for(PaymentState::Succeeded) == Some((WebhookEvent::InvoicePaid, EventSubject::Invoice)),
{
}

/// A charge that the processor refuses, answers with another status, or that fails in
/// transit, fails the attempt and leaves the invoice as it was: still open, it can be
/// charged again under a new key.
pub proof fn lemma_failed_charge_leaves_invoice_open(reply: PspReply, invoice: Invoice)
    requires
        reply is Rejected || reply is NetworkError || (reply matches PspReply::Answered(body)
            && body.status@ != "succeeded"@),
        invoice.state == InvoiceState::Open,
    ensures
        settled_state(reply) == Some(PaymentState::Failed),
        invoice_state_after(PaymentState::Failed) is None,
        charge_allowed(Some(&invoice)),
        payment_event_for(PaymentState::Failed) == Some(
            (WebhookEvent::InvoicePaymentFailed, EventSubject::Attempt),
        ),
{
}

/// A charge that times out leaves the attempt pending and the invoice unchanged, and
/// announces nothing.
pub proof fn lemma_timed_out_charge_stays_pending()
    ensures
        settled_state(PspReply::TimedOut) == Some(PaymentState::Pending),
        invoice_state_after(PaymentState::Pending) is None,
        payment_event_for(PaymentState::Pending) is None,
{
}

} // verus!
