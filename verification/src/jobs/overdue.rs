use vstd::prelude::*;
use crate::models::invoice::{Invoice, InvoiceState};
use crate::services::invoice_service::transition_allowed;
use crate::services::webhook_service::WebhookEvent;
use crate::text::owned;

verus! {

/// An invoice is overdue when it is open and its due date lies before `now`
/// (microseconds since the epoch).
pub open spec fn is_overdue(invoice: &Invoice, now: int) -> bool {
    invoice.state == InvoiceState::Open && invoice.due_date < now
}

/// The JSON text of the data announced for an overdue invoice, given the JSON text of
/// its id: `{"invoice_id": <id>, "reason": "overdue"}`, keys in sorted order.
pub open spec fn overdue_data_text(invoice_id_json: Seq<char>) -> Seq<char> {
    "{\"invoice_id\":"@ + invoice_id_json + ",\"reason\":\"overdue\"}"@
}

/// What the overdue job does with one invoice: write it off and announce it.
#[derive(Debug)]
pub struct OverdueWriteOff {
    pub new_state: InvoiceState,
    pub business_id: String,
    pub event: WebhookEvent,
    pub data: String,
}

/// The overdue job for one invoice at time `now`: an open invoice past its due date is
/// written off as uncollectible and announced to its business as `invoice.payment_failed`
/// with the data `{"invoice_id": ..., "reason": "overdue"}`; any other invoice is left as
/// it is. `invoice_id_json` is the JSON text of the invoice's id.
pub fn run_overdue_job(invoice: &Invoice, invoice_id_json: &str, now: i64) -> (r: Option<
    OverdueWriteOff,
>)
    ensures
        !is_overdue(invoice, now as int) ==> r is None,
        invoice.state == InvoiceState::Open && invoice.due_date < now ==> r is Some,
        invoice.state != InvoiceState::Open || invoice.due_date >= now ==> r is None,
        is_overdue(invoice, now as int) ==> (r matches Some(w) && {
            &&& w.new_state == InvoiceState::Uncollectible
            &&& w.business_id@ == invoice.business_id@
            &&& w.event == WebhookEvent::InvoicePaymentFailed
            &&& w.data@ == overdue_data_text(invoice_id_json@)
        }),
{
    if invoice.state == InvoiceState::Open && invoice.due_date < now {
        let mut data = owned("{\"invoice_id\":");
        data.append(invoice_id_json);
        data.append(",\"reason\":\"overdue\"}");
        Some(
            OverdueWriteOff {
                new_state: InvoiceState::Uncollectible,
                business_id: owned(invoice.business_id.as_str()),
                event: WebhookEvent::InvoicePaymentFailed,
                data,
            },
        )
    } else {
        None
    }
}

/// An invoice is overdue exactly when it is open and fell due before `now`, however long
/// ago; once overdue it stays overdue at every later time.
pub proof fn lemma_overdue_exactly_open_and_past_due(invoice: &Invoice, now: int, later: int)
    ensures
        is_overdue(invoice, now) <==> (invoice.state == InvoiceState::Open && invoice.due_date < now),
        is_overdue(invoice, now) && now <= later ==> is_overdue(invoice, later),
        invoice.state != InvoiceState::Open ==> !is_overdue(invoice, now),
{
}

/// Writing off an overdue invoice is a move the invoice life cycle allows, and only
/// open invoices are written off.
pub proof fn lemma_write_off_is_allowed(invoice: &Invoice, now: int)
    requires
        is_overdue(invoice, now),
    ensures
        transition_allowed(invoice.state, InvoiceState::Uncollectible),
        invoice.state == InvoiceState::Open,
{
}

} // verus!
