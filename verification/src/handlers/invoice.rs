use vstd::prelude::*;
use crate::errors::AppError;
use crate::models::invoice::Invoice;
use crate::services::invoice_service::{self, is_draft_of, lines_fit, InvoiceCreation};
use crate::text::owned;

verus! {

/// One line of a request to create an invoice.
#[derive(Debug)]
pub struct CreateLineItemRequest {
    pub description: String,
    pub quantity: i32,
    pub unit_amount_cents: i64,
}

/// A request to create an invoice for a customer of the caller's business.
#[derive(Debug)]
pub struct CreateInvoiceRequest {
    pub customer_id: String,
    pub line_items: Vec<CreateLineItemRequest>,
    pub idempotency_key: Option<String>,
}

/// The filter of a listing of invoices: only those in the named state, if given.
#[derive(Debug)]
pub struct ListInvoicesQuery {
    pub state: Option<String>,
}

/// The lines of a request as (description, quantity, unit amount).
pub open spec fn request_lines(items: Seq<CreateLineItemRequest>) -> Seq<(String, i32, i64)> {
    items.map_values(|i: CreateLineItemRequest| (i.description, i.quantity, i.unit_amount_cents))
}

/// The lines of a request, in order, as (description, quantity, unit amount).
pub fn line_item_tuples(items: &Vec<CreateLineItemRequest>) -> (r: Vec<(String, i32, i64)>)
    ensures
        r@ == request_lines(items@),
{
    let mut r: Vec<(String, i32, i64)> = Vec::new();
    let n = items.len();
    let mut i: usize = 0;
    while i < n
        invariant
            n == items@.len(),
            i <= n,
            r@ == request_lines(items@.take(i as int)),
        decreases n - i,
    {
        let it = &items[i];
        r.push((it.description.clone(), it.quantity, it.unit_amount_cents));
        proof {
            assert(items@.take(i + 1) =~= items@.take(i as int).push(items@[i as int]));
            assert(request_lines(items@.take(i + 1)) =~= request_lines(items@.take(i as int)).push(
                (items@[i as int].description, items@[i as int].quantity, items@[i as int].unit_amount_cents),
            ));
        }
        i = i + 1;
    }
    assert(items@.take(n as int) =~= items@);
    r
}

/// The answer to a creation request of `business_id`; `existing` is the invoice already
/// stored for the business under the request's idempotency key, if any. See
/// `invoice_service::create_invoice`.
pub fn create_invoice(existing: Option<Invoice>, business_id: &str, request: CreateInvoiceRequest) -> (r:
    InvoiceCreation)
    requires
        existing is None ==> lines_fit(request_lines(request.line_items@)),
    ensures
        existing matches Some(inv) ==> r == InvoiceCreation::Replay(inv),
        existing is None ==> (r matches InvoiceCreation::Created(d) && is_draft_of(
            d,
            business_id@,
            request.customer_id@,
            request_lines(request.line_items@),
            request.idempotency_key,
        )),
{
    let lines = line_item_tuples(&request.line_items);
    invoice_service::create_invoice(
        existing,
        business_id,
        request.customer_id.as_str(),
        lines,
        request.idempotency_key,
    )
}

/// The answer to a lookup of an invoice of the caller's business: the invoice, or
/// `NotFound`.
pub fn get_invoice(found: Option<Invoice>) -> (r: Result<Invoice, AppError>)
    ensures
        found matches Some(inv) ==> r == Ok::<Invoice, AppError>(inv),
        found is None ==> (r matches Err(AppError::NotFound(m)) && m@ == "Invoice not found"@),
{
    match found {
        Some(inv) => Ok(inv),
        None => Err(AppError::NotFound(owned("Invoice not found"))),
    }
}

} // verus!
