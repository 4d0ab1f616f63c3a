use vstd::prelude::*;
use crate::text::{owned, text_eq};

verus! {

/// The life-cycle state of an invoice.
#[derive(PartialEq, Eq, Structural, Clone, Copy, Debug)]
pub enum InvoiceState {
    Draft,
    Open,
    Paid,
    Void,
    Uncollectible,
}

/// The name under which a state is stored and reported.
pub open spec fn invoice_state_name(s: InvoiceState) -> Seq<char> {
    match s {
        InvoiceState::Draft => "draft"@,
        InvoiceState::Open => "open"@,
        InvoiceState::Paid => "paid"@,
        InvoiceState::Void => "void"@,
        InvoiceState::Uncollectible => "uncollectible"@,
    }
}

/// The state that a stored name denotes, if any.
pub open spec fn invoice_state_from_name(name: Seq<char>) -> Option<InvoiceState> {
    if name == "draft"@ {
        Some(InvoiceState::Draft)
    } else if name == "open"@ {
        Some(InvoiceState::Open)
    } else if name == "paid"@ {
        Some(InvoiceState::Paid)
    } else if name == "void"@ {
        Some(InvoiceState::Void)
    } else if name == "uncollectible"@ {
        Some(InvoiceState::Uncollectible)
    } else {
        None
    }
}

impl InvoiceState {
    /// The stored name of this state.
    pub fn name(&self) -> (r: String)
        ensures
            r@ == invoice_state_name(*self),
    {
        match self {
            InvoiceState::Draft => owned("draft"),
            InvoiceState::Open => owned("open"),
            InvoiceState::Paid => owned("paid"),
            InvoiceState::Void => owned("void"),
            InvoiceState::Uncollectible => owned("uncollectible"),
        }
    }

    /// Reads a stored state name.
    pub fn parse(name: &str) -> (r: Option<InvoiceState>)
        ensures
            r == invoice_state_from_name(name@),
    {
        if text_eq(name, "draft") {
            Some(InvoiceState::Draft)
        } else if text_eq(name, "open") {
            Some(InvoiceState::Open)
        } else if text_eq(name, "paid") {
            Some(InvoiceState::Paid)
        } else if text_eq(name, "void") {
            Some(InvoiceState::Void)
        } else if text_eq(name, "uncollectible") {
            Some(InvoiceState::Uncollectible)
        } else {
            None
        }
    }
}

/// Reading back the name of a state gives that state.
pub proof fn lemma_invoice_state_name_round_trip(s: InvoiceState)
    ensures
        invoice_state_from_name(invoice_state_name(s)) == Some(s),
{
    reveal_strlit("draft");
    reveal_strlit("open");
    reveal_strlit("paid");
    reveal_strlit("void");
    reveal_strlit("uncollectible");
    assert("open"@ != "draft"@) by { assert("open"@.len() != "draft"@.len()); }
    assert("paid"@ != "draft"@) by { assert("paid"@.len() != "draft"@.len()); }
    assert("paid"@ != "open"@) by { assert("paid"@[0] != "open"@[0]); }
    assert("void"@ != "draft"@) by { assert("void"@.len() != "draft"@.len()); }
    assert("void"@ != "open"@) by { assert("void"@[0] != "open"@[0]); }
    assert("void"@ != "paid"@) by { assert("void"@[0] != "paid"@[0]); }
    assert("uncollectible"@ != "draft"@) by { assert("uncollectible"@.len() != "draft"@.len()); }
    assert("uncollectible"@ != "open"@) by { assert("uncollectible"@.len() != "open"@.len()); }
    assert("uncollectible"@ != "paid"@) by { assert("uncollectible"@.len() != "paid"@.len()); }
    assert("uncollectible"@ != "void"@) by { assert("uncollectible"@.len() != "void"@.len()); }
}

/// An invoice, as stored. Timestamps are microseconds since the Unix epoch.
#[derive(Debug)]
pub struct Invoice {
    pub id: String,
    pub business_id: String,
    pub customer_id: String,
    pub state: InvoiceState,
    pub currency: String,
    pub total_cents: i64,
    pub due_date: i64,
    pub idempotency_key: Option<String>,
    pub created_at: i64,
    pub updated_at: i64,
}

/// One line of an invoice; `amount_cents` is `quantity * unit_amount_cents`.
#[derive(Debug)]
pub struct LineItem {
    pub id: String,
    pub invoice_id: String,
    pub description: String,
    pub quantity: i32,
    pub unit_amount_cents: i64,
    pub amount_cents: i64,
    pub position: i32,
}

} // verus!
