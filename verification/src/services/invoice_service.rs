use vstd::prelude::*;
use crate::crypto::{hex_encode, hex_lower, lemma_hex_lower_injective, lemma_hex_lower_shape};
use crate::entropy::{is_crockford_digit, new_ulid};
use crate::errors::AppError;
use crate::models::invoice::{invoice_state_name, Invoice, InvoiceState, LineItem};
use crate::text::{joined, owned, text_eq};

verus! {

// ---------------------------------------------------------------------------
// The invoice life cycle
// ---------------------------------------------------------------------------

/// The moves an invoice may make: a draft is finalized (open) or voided; an open
/// invoice is voided, paid or written off as uncollectible. Nothing else.
pub open spec fn transition_allowed(from: InvoiceState, to: InvoiceState) -> bool {
    match (from, to) {
        (InvoiceState::Draft, InvoiceState::Open) => true,
        (InvoiceState::Draft, InvoiceState::Void) => true,
        (InvoiceState::Open, InvoiceState::Void) => true,
        (InvoiceState::Open, InvoiceState::Paid) => true,
        (InvoiceState::Open, InvoiceState::Uncollectible) => true,
        _ => false,
    }
}

/// States that an invoice never leaves.
pub open spec fn is_terminal(s: InvoiceState) -> bool {
    s == InvoiceState::Paid || s == InvoiceState::Void || s == InvoiceState::Uncollectible
}

/// Whether an invoice in state `from` may move to state `to`.
pub fn can_transition(from: InvoiceState, to: InvoiceState) -> (r: bool)
    ensures
        r == transition_allowed(from, to),
{
    match (from, to) {
        (InvoiceState::Draft, InvoiceState::Open) => true,
        (InvoiceState::Draft, InvoiceState::Void) => true,
        (InvoiceState::Open, InvoiceState::Void) => true,
        (InvoiceState::Open, InvoiceState::Paid) => true,
        (InvoiceState::Open, InvoiceState::Uncollectible) => true,
        _ => false,
    }
}

/// The answer to a request to move an invoice (looked up for the caller's business)
/// to `to_state`: the new state, `NotFound` where there is no such invoice, or
/// `InvalidTransition` naming both states where the move is not allowed.
pub fn transition_state(invoice: Option<&Invoice>, to_state: InvoiceState) -> (r: Result<
    InvoiceState,
    AppError,
>)
    ensures
        invoice is None ==> (r matches Err(AppError::NotFound(m)) && m@ == "Invoice not found"@),
        invoice matches Some(inv) ==> {
            if transition_allowed(inv.state, to_state) {
                r == Ok::<InvoiceState, AppError>(to_state)
            } else {
                r matches Err(AppError::InvalidTransition { from, to }) && from@ == invoice_state_name(
                    inv.state,
                ) && to@ == invoice_state_name(to_state)
            }
        },
{
    match invoice {
        None => Err(AppError::NotFound(owned("Invoice not found"))),
        Some(inv) => {
            if can_transition(inv.state, to_state) {
                Ok(to_state)
            } else {
                Err(AppError::InvalidTransition { from: inv.state.name(), to: to_state.name() })
            }
        },
    }
}

/// Paid, void and uncollectible invoices admit no further move.
pub proof fn lemma_terminal_states_are_final(from: InvoiceState, to: InvoiceState)
    requires
        is_terminal(from),
    ensures
        !transition_allowed(from, to),
{
}

/// No move leads back to draft, and no move stays in place.
pub proof fn lemma_no_move_to_draft_or_in_place(from: InvoiceState, to: InvoiceState)
    requires
        transition_allowed(from, to),
    ensures
        to != InvoiceState::Draft,
        from != to,
{
}

/// Every allowed move ends in a state that is final or open, and two moves in a row
/// always go draft, then open, then a final state: an invoice makes at most two moves.
pub proof fn lemma_at_most_two_moves(a: InvoiceState, b: InvoiceState, c: InvoiceState)
    requires
        transition_allowed(a, b),
        transition_allowed(b, c),
    ensures
        a == InvoiceState::Draft,
        b == InvoiceState::Open,
        is_terminal(c),
        forall|d: InvoiceState| !transition_allowed(c, d),
{
}

// ---------------------------------------------------------------------------
// Creating an invoice
// ---------------------------------------------------------------------------

/// What a request to create an invoice leads to.
#[derive(Debug)]
pub enum InvoiceCreation {
    /// An invoice was already created under the same idempotency key: it is the answer,
    /// unchanged, and nothing new is stored.
    Replay(Invoice),
    /// Store this new invoice and its lines.
    Created(InvoiceDraft),
}

/// The answer to a request to create an invoice: `existing` is the invoice already
/// stored for the business under the request's idempotency key, if any. An existing
/// invoice is returned as it is; otherwise the new invoice is drafted (`draft_invoice`).
pub fn create_invoice(
    existing: Option<Invoice>,
    business_id: &str,
    customer_id: &str,
    line_items: Vec<(String, i32, i64)>,
    idempotency_key: Option<String>,
) -> (r: InvoiceCreation)
    requires
        existing is None ==> lines_fit(line_items@),
    ensures
        existing matches Some(inv) ==> r == InvoiceCreation::Replay(inv),
        existing is None ==> (r matches InvoiceCreation::Created(d) && is_draft_of(
            d,
            business_id@,
            customer_id@,
            line_items@,
            idempotency_key,
        )),
{
    match existing {
        Some(inv) => InvoiceCreation::Replay(inv),
        None => InvoiceCreation::Created(
            draft_invoice(business_id, customer_id, line_items, idempotency_key),
        ),
    }
}

/// The amount of one line: quantity times unit amount.
pub open spec fn line_amount(quantity: i32, unit_amount_cents: i64) -> int {
    quantity * unit_amount_cents
}

/// A line that the schema's checks accept when it is stored: a positive quantity and a
/// unit amount that is not negative.
pub open spec fn line_valid(quantity: i32, unit_amount_cents: i64) -> bool {
    quantity > 0 && unit_amount_cents >= 0
}

/// Every line is valid.
pub open spec fn lines_valid(items: Seq<(String, i32, i64)>) -> bool {
    forall|i: int| 0 <= i < items.len() ==> line_valid(#[trigger] items[i].1, items[i].2)
}

/// The invoice total: the sum of the line amounts.
pub open spec fn lines_total(items: Seq<(String, i32, i64)>) -> int
    decreases items.len(),
{
    if items.len() == 0 {
        0
    } else {
        lines_total(items.drop_last()) + line_amount(items.last().1, items.last().2)
    }
}

/// The line amounts and the running totals of the lines all fit in 64-bit cents: the
/// arithmetic of drafting an invoice does not overflow.
pub open spec fn lines_fit(items: Seq<(String, i32, i64)>) -> bool {
    forall|k: int|
        0 <= k < items.len() ==> i64::MIN <= line_amount(#[trigger] items[k].1, items[k].2)
            <= i64::MAX && i64::MIN <= lines_total(items.take(k + 1)) <= i64::MAX
}

/// An invoice about to be stored, with its lines. `id` and the lines' ids are fresh.
#[derive(Debug)]
pub struct InvoiceDraft {
    pub id: String,
    pub business_id: String,
    pub customer_id: String,
    pub state: InvoiceState,
    pub total_cents: i64,
    pub idempotency_key: Option<String>,
    pub line_items: Vec<LineItem>,
}

/// `d` is the new invoice for the given business, customer, lines and idempotency key:
/// in the draft state, with a fresh 26-character id, the total of the lines (never
/// negative when every line is valid), and one stored line per given line, in order, each with
/// its own 26-character id (no two lines share one, and none is the invoice's id), the
/// given description, quantity and unit amount, its amount and its index as position.
pub open spec fn is_draft_of(
    d: InvoiceDraft,
    business_id: Seq<char>,
    customer_id: Seq<char>,
    lines: Seq<(String, i32, i64)>,
    idempotency_key: Option<String>,
) -> bool {
    &&& d.business_id@ == business_id
    &&& d.customer_id@ == customer_id
    &&& d.state == InvoiceState::Draft
    &&& d.idempotency_key == idempotency_key
    &&& d.total_cents == lines_total(lines)
    &&& lines_valid(lines) ==> d.total_cents >= 0
    &&& d.id@.len() == 26
    &&& d.line_items@.len() == lines.len()
    &&& forall|i: int|
        #![trigger d.line_items@[i]]
        0 <= i < lines.len() ==> {
            let li = d.line_items@[i];
            &&& li.invoice_id@ == d.id@
            &&& li.id@.len() == 26
            &&& li.description == lines[i].0
            &&& li.quantity == lines[i].1
            &&& li.unit_amount_cents == lines[i].2
            &&& li.amount_cents == line_amount(lines[i].1, lines[i].2)
            &&& li.position == i as i32
        }
    &&& forall|i: int| 0 <= i < lines.len() ==> #[trigger] d.line_items@[i].id@ != d.id@
    &&& forall|i: int, k: int|
        #![trigger d.line_items@[i], d.line_items@[k]]
        0 <= i < lines.len() && 0 <= k < lines.len() && i != k ==> d.line_items@[i].id@
            != d.line_items@[k].id@
}

/// Over valid lines, the total of any prefix lies between zero and the full total.
pub proof fn lemma_prefix_total_bounds(items: Seq<(String, i32, i64)>, k: int)
    requires
        lines_valid(items),
        0 <= k <= items.len(),
    ensures
        0 <= lines_total(items.take(k)) <= lines_total(items),
    decreases items.len(),
{
    if items.len() > 0 {
        let init = items.drop_last();
        assert(lines_valid(init)) by {
            assert forall|i: int| 0 <= i < init.len() implies line_valid(#[trigger] init[i].1, init[i].2) by {
                assert(init[i] == items[i]);
            }
        }
        let q = items.last().1;
        let u = items.last().2;
        assert(line_valid(items[items.len() - 1].1, items[items.len() - 1].2));
        assert(line_amount(q, u) >= 0) by (nonlinear_arith)
            requires
                q > 0,
                u >= 0,
        ;
        lemma_prefix_total_bounds(init, init.len() as int);
        assert(init.take(init.len() as int) =~= init);
        if k == items.len() {
            assert(items.take(k) =~= items);
        } else {
            lemma_prefix_total_bounds(init, k);
            assert(init.take(k) =~= items.take(k));
        }
    } else {
        assert(items.take(k) =~= items);
    }
}

/// Text made only of Crockford base-32 digits, as fresh identifiers are.
pub open spec fn all_crockford(s: Seq<char>) -> bool {
    forall|k: int| 0 <= k < s.len() ==> is_crockford_digit(#[trigger] s[k])
}

/// The eight bytes of a position, most significant first.
pub open spec fn position_bytes(p: u64) -> Seq<u8> {
    seq![
        ((p >> 56u64) & 0xffu64) as u8,
        ((p >> 48u64) & 0xffu64) as u8,
        ((p >> 40u64) & 0xffu64) as u8,
        ((p >> 32u64) & 0xffu64) as u8,
        ((p >> 24u64) & 0xffu64) as u8,
        ((p >> 16u64) & 0xffu64) as u8,
        ((p >> 8u64) & 0xffu64) as u8,
        (p & 0xffu64) as u8,
    ]
}

/// The identifier given to the line at position `p` when the fresh identifier drawn for
/// it is already taken: `x`, nine zeros and the position in sixteen hex digits. It is 26
/// characters long, like a fresh identifier, and its first character is no Crockford digit.
pub open spec fn spare_line_id(p: u64) -> Seq<char> {
    "x000000000"@ + hex_lower(position_bytes(p))
}

/// Spare identifiers are 26 characters long, start with `x`, and differ for different positions.
pub proof fn lemma_spare_line_id(p: u64, q: u64)
    ensures
        spare_line_id(p).len() == 26,
        spare_line_id(p)[0] == 'x',
        !is_crockford_digit(spare_line_id(p)[0]),
        spare_line_id(p) == spare_line_id(q) ==> p == q,
{
    reveal_strlit("x000000000");
    lemma_hex_lower_shape(position_bytes(p));
    lemma_hex_lower_shape(position_bytes(q));
    if spare_line_id(p) == spare_line_id(q) {
        assert(spare_line_id(p).subrange(10, 26) =~= hex_lower(position_bytes(p)));
        assert(spare_line_id(q).subrange(10, 26) =~= hex_lower(position_bytes(q)));
        lemma_hex_lower_injective(position_bytes(p), position_bytes(q));
        let bp = position_bytes(p);
        let bq = position_bytes(q);
        assert(bp[0] == bq[0] && bp[1] == bq[1] && bp[2] == bq[2] && bp[3] == bq[3]);
        assert(bp[4] == bq[4] && bp[5] == bq[5] && bp[6] == bq[6] && bp[7] == bq[7]);
        assert(p == q) by (bit_vector)
            requires
                ((p >> 56u64) & 0xffu64) as u8 == ((q >> 56u64) & 0xffu64) as u8,
                ((p >> 48u64) & 0xffu64) as u8 == ((q >> 48u64) & 0xffu64) as u8,
                ((p >> 40u64) & 0xffu64) as u8 == ((q >> 40u64) & 0xffu64) as u8,
                ((p >> 32u64) & 0xffu64) as u8 == ((q >> 32u64) & 0xffu64) as u8,
                ((p >> 24u64) & 0xffu64) as u8 == ((q >> 24u64) & 0xffu64) as u8,
                ((p >> 16u64) & 0xffu64) as u8 == ((q >> 16u64) & 0xffu64) as u8,
                ((p >> 8u64) & 0xffu64) as u8 == ((q >> 8u64) & 0xffu64) as u8,
                (p & 0xffu64) as u8 == (q & 0xffu64) as u8,
        ;
    }
}

/// The spare identifier of the line at position `p` (see `spare_line_id`).
fn spare_line_id_text(p: u64) -> (r: String)
    ensures
        r@ == spare_line_id(p),
{
    let mut bytes: Vec<u8> = Vec::new();
    bytes.push(((p >> 56u64) & 0xffu64) as u8);
    bytes.push(((p >> 48u64) & 0xffu64) as u8);
    bytes.push(((p >> 40u64) & 0xffu64) as u8);
    bytes.push(((p >> 32u64) & 0xffu64) as u8);
    bytes.push(((p >> 24u64) & 0xffu64) as u8);
    bytes.push(((p >> 16u64) & 0xffu64) as u8);
    bytes.push(((p >> 8u64) & 0xffu64) as u8);
    bytes.push((p & 0xffu64) as u8);
    assert(bytes@ =~= position_bytes(p));
    let digits = hex_encode(bytes.as_slice());
    joined("x000000000", digits.as_str())
}

/// Whether `candidate` is the invoice's id or the id of one of the lines so far.
fn id_taken(candidate: &str, invoice_id: &str, items: &Vec<LineItem>) -> (r: bool)
    ensures
        r == (candidate@ == invoice_id@ || exists|i: int|
            0 <= i < items@.len() && #[trigger] items@[i].id@ == candidate@),
{
    if text_eq(candidate, invoice_id) {
        return true;
    }
    let mut k: usize = 0;
    while k < items.len()
        invariant
            k <= items@.len(),
            forall|i: int| 0 <= i < k ==> #[trigger] items@[i].id@ != candidate@,
        decreases items@.len() - k,
    {
        if text_eq(items[k].id.as_str(), candidate) {
            return true;
        }
        k = k + 1;
    }
    false
}

/// Every line of a drafted invoice can be stored under its own key: no two lines share an
/// id, and no line has the invoice's id.
pub proof fn lemma_drafted_line_ids_distinct(
    d: InvoiceDraft,
    business_id: Seq<char>,
    customer_id: Seq<char>,
    lines: Seq<(String, i32, i64)>,
    idempotency_key: Option<String>,
    i: int,
    k: int,
)
    requires
        is_draft_of(d, business_id, customer_id, lines, idempotency_key),
        0 <= i < d.line_items@.len(),
        0 <= k < d.line_items@.len(),
    ensures
        d.line_items@[i].id@ != d.id@,
        i != k ==> d.line_items@[i].id@ != d.line_items@[k].id@,
{
}

/// A new invoice, in the draft state, for `business_id` and `customer_id` with the given
/// lines (description, quantity, unit amount in cents), in order. Each line's amount is
/// its quantity times its unit amount, its position its index, and the total the sum of
/// the amounts. Lines are not checked here: a line with a quantity that is not positive
/// or a negative unit amount is refused by the schema when it is stored.
pub fn draft_invoice(
    business_id: &str,
    customer_id: &str,
    line_items: Vec<(String, i32, i64)>,
    idempotency_key: Option<String>,
) -> (d: InvoiceDraft)
    requires
        lines_fit(line_items@),
    ensures
        is_draft_of(d, business_id@, customer_id@, line_items@, idempotency_key),
        d.line_items@.len() == line_items@.len(),
        forall|i: int| 0 <= i < d.line_items@.len() ==> #[trigger] d.line_items@[i].id@ != d.id@,
        forall|i: int, k: int|
            #![trigger d.line_items@[i], d.line_items@[k]]
            0 <= i < d.line_items@.len() && 0 <= k < d.line_items@.len() && i != k
                ==> d.line_items@[i].id@ != d.line_items@[k].id@,
{
    let n = line_items.len();
    let id = new_ulid();
    let mut items: Vec<LineItem> = Vec::new();
    let mut total: i64 = 0;
    let mut j: usize = 0;
    assert(line_items@.take(0) =~= Seq::<(String, i32, i64)>::empty());
    while j < n
        invariant
            n == line_items@.len(),
            j <= n,
            lines_fit(line_items@),
            total == lines_total(line_items@.take(j as int)),
            id@.len() == 26,
            items@.len() == j,
            forall|i: int|
                #![trigger items@[i]]
                0 <= i < j ==> {
                    let li = items@[i];
                    &&& li.invoice_id@ == id@
                    &&& li.id@.len() == 26
                    &&& li.description == line_items@[i].0
                    &&& li.quantity == line_items@[i].1
                    &&& li.unit_amount_cents == line_items@[i].2
                    &&& li.amount_cents == line_amount(line_items@[i].1, line_items@[i].2)
                    &&& li.position == i as i32
                },
            all_crockford(id@),
            forall|i: int|
                0 <= i < j ==> all_crockford(#[trigger] items@[i].id@) || items@[i].id@
                    == spare_line_id(i as u64),
            forall|i: int| 0 <= i < j ==> #[trigger] items@[i].id@ != id@,
            forall|i: int, k: int|
                #![trigger items@[i], items@[k]]
                0 <= i < j && 0 <= k < j && i != k ==> items@[i].id@ != items@[k].id@,
        decreases n - j,
    {
        let q = line_items[j].1;
        let u = line_items[j].2;
        proof {
            assert(line_items@.take(j + 1).drop_last() =~= line_items@.take(j as int));
            assert(line_items@.take(j + 1).last() == line_items@[j as int]);
        }
        let amount = (q as i64) * u;
        total = total + amount;
        let candidate = new_ulid();
        let taken = id_taken(candidate.as_str(), id.as_str(), &items);
        let line_id = if taken {
            spare_line_id_text(j as u64)
        } else {
            candidate
        };
        proof {
            lemma_spare_line_id(j as u64, j as u64);
            if taken {
                assert(is_crockford_digit(id@[0]));
            }
            assert forall|i: int| 0 <= i < j implies #[trigger] items@[i].id@ != line_id@ by {
                if taken {
                    lemma_spare_line_id(j as u64, i as u64);
                    if all_crockford(items@[i].id@) {
                        assert(is_crockford_digit(items@[i].id@[0]));
                    }
                }
            }
        }
        let item = LineItem {
            id: line_id,
            invoice_id: owned(id.as_str()),
            description: line_items[j].0.clone(),
            quantity: q,
            unit_amount_cents: u,
            amount_cents: amount,
            position: j as i32,
        };
        items.push(item);
        j = j + 1;
    }
    assert(line_items@.take(n as int) =~= line_items@);
    proof {
        if lines_valid(line_items@) {
            lemma_prefix_total_bounds(line_items@, n as int);
        }
    }
    InvoiceDraft {
        id,
        business_id: owned(business_id),
        customer_id: owned(customer_id),
        state: InvoiceState::Draft,
        total_cents: total,
        idempotency_key,
        line_items: items,
    }
}

} // verus!
