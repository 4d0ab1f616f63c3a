use payment_service::errors::AppError;
use payment_service::models::invoice::{Invoice, InvoiceState};
use payment_service::models::payment_attempt::{PaymentAttempt, PaymentState};
use payment_service::services::payment_service::{
    begin_payment, invoice_state_after_payment, payment_event, settle_payment, success_status,
    EventSubject, PaymentStart, PspReply, PspResponse,
};
use payment_service::services::webhook_service::WebhookEvent;

fn open_invoice(total_cents: i64) -> Invoice {
    Invoice {
        id: "inv_1".to_string(),
        business_id: "biz_1".to_string(),
        customer_id: "cust_1".to_string(),
        state: InvoiceState::Open,
        currency: "USD".to_string(),
        total_cents,
        due_date: 0,
        idempotency_key: None,
        created_at: 0,
        updated_at: 0,
    }
}

fn succeeded(psp_ref: &str) -> PspReply {
    PspReply::Answered(PspResponse {
        status: "succeeded".to_string(),
        psp_ref: Some(psp_ref.to_string()),
        code: None,
    })
}

/// Runs one payment request against the stored invoice and attempts, the way the
/// service does, with the card processor answering `reply`.
fn pay(
    invoice: &mut Invoice,
    attempts: &mut Vec<PaymentAttempt>,
    token: &str,
    key: &str,
    reply: impl Fn() -> PspReply,
    charges: &mut u32,
) -> Result<PaymentAttempt, AppError> {
    let existing = attempts
        .iter()
        .position(|a| a.idempotency_key == key)
        .map(|i| attempts[i].clone_attempt());
    match begin_payment(existing, Some(&*invoice), &invoice.id.clone(), token, key) {
        PaymentStart::Replay(a) => Ok(a),
        PaymentStart::Refused(e) => Err(e),
        PaymentStart::Charge { mut attempt, request } => {
            assert_eq!(request.amount_cents, invoice.total_cents);
            *charges += 1;
            let settlement = settle_payment(reply())?;
            attempt.state = settlement.state;
            attempt.psp_reference_id = settlement.psp_reference_id;
            attempt.error_message = settlement.error_message;
            if let Some(s) = invoice_state_after_payment(attempt.state) {
                invoice.state = s;
            }
            attempts.push(attempt.clone_attempt());
            Ok(attempt)
        }
    }
}

trait CloneAttempt {
    fn clone_attempt(&self) -> PaymentAttempt;
}

impl CloneAttempt for PaymentAttempt {
    fn clone_attempt(&self) -> PaymentAttempt {
        PaymentAttempt {
            id: self.id.clone(),
            invoice_id: self.invoice_id.clone(),
            idempotency_key: self.idempotency_key.clone(),
            card_token: self.card_token.clone(),
            amount_cents: self.amount_cents,
            currency: self.currency.clone(),
            state: self.state,
            psp_reference_id: self.psp_reference_id.clone(),
            error_message: self.error_message.clone(),
            created_at: self.created_at,
            updated_at: self.updated_at,
        }
    }
}

/// The five payments of the same invoice run one after another here, not concurrently:
/// this shows the library's rule (a paid invoice is refused further charges), not a
/// property of concurrent database transactions.
#[test]
fn test_concurrency_payment() {
    let mut invoice = open_invoice(1000);
    let mut attempts = Vec::new();
    let mut charges = 0;
    let n = 5;
    let mut success_count = 0;
    for i in 0..n {
        let key = format!("key_{}", i);
        let res = pay(&mut invoice, &mut attempts, "tok_success", &key, || succeeded("ref_123"), &mut charges);
        if let Ok(attempt) = res {
            if attempt.state == PaymentState::Succeeded {
                success_count += 1;
            }
        }
    }
    assert_eq!(success_count, 1, "Only one payment should succeed for the same invoice");
    assert_eq!(invoice.state.name(), "paid");
}

#[test]
fn test_idempotency() {
    let mut invoice = open_invoice(1000);
    let mut attempts = Vec::new();
    let mut charges = 0;
    let i_key = "idemp_123";
    let res1 = pay(&mut invoice, &mut attempts, "tok_success", i_key, || succeeded("ref_idemp"), &mut charges).unwrap();
    let res2 = pay(&mut invoice, &mut attempts, "tok_success", i_key, || succeeded("ref_idemp"), &mut charges).unwrap();
    assert_eq!(charges, 1);
    assert_eq!(res1.id, res2.id);
    assert_eq!(res1.state, res2.state);
}

#[test]
fn test_psp_failure_behavior() {
    let mut invoice = open_invoice(1000);
    let mut attempts = Vec::new();
    let mut charges = 0;
    let res = pay(
        &mut invoice,
        &mut attempts,
        "tok_network_error",
        "key_fail",
        || PspReply::Rejected("500 Internal Server Error".to_string()),
        &mut charges,
    )
    .unwrap();
    assert_eq!(res.state.name(), "failed");
    assert_eq!(invoice.state.name(), "open", "Invoice should remain open after PSP failure");
}

#[test]
fn payment_of_missing_invoice_is_not_found() {
    match begin_payment(None, None, "inv_x", "tok_success", "k") {
        PaymentStart::Refused(AppError::NotFound(m)) => assert_eq!(m, "Invoice not found"),
        _ => panic!("expected NotFound"),
    }
}

#[test]
fn payment_of_draft_invoice_is_invalid_transition() {
    let mut inv = open_invoice(500);
    inv.state = InvoiceState::Draft;
    match begin_payment(None, Some(&inv), "inv_1", "tok_success", "k") {
        PaymentStart::Refused(AppError::InvalidTransition { from, to }) => {
            assert_eq!(from, "draft");
            assert_eq!(to, "paid");
        }
        _ => panic!("expected InvalidTransition"),
    }
}

#[test]
fn charge_records_amount_currency_key_and_token() {
    let inv = open_invoice(4200);
    match begin_payment(None, Some(&inv), "inv_1", "tok_abc", "key_9") {
        PaymentStart::Charge { attempt, request } => {
            assert_eq!(attempt.amount_cents, 4200);
            assert_eq!(attempt.currency, "USD");
            assert_eq!(attempt.idempotency_key, "key_9");
            assert_eq!(attempt.card_token, "tok_abc");
            assert_eq!(attempt.invoice_id, "inv_1");
            assert_eq!(attempt.state, PaymentState::Pending);
            assert_eq!(attempt.id.len(), 26);
            assert!(attempt.psp_reference_id.is_none());
            assert_eq!(request.token, "tok_abc");
            assert_eq!(request.amount_cents, 4200);
        }
        _ => panic!("expected a charge"),
    }
}

#[test]
fn existing_attempt_is_replayed_even_when_invoice_is_gone() {
    let inv = open_invoice(1);
    let a = match begin_payment(None, Some(&inv), "inv_1", "tok", "k") {
        PaymentStart::Charge { attempt, .. } => attempt,
        _ => panic!("expected a charge"),
    };
    let id = a.id.clone();
    match begin_payment(Some(a), None, "inv_1", "tok", "k") {
        PaymentStart::Replay(b) => assert_eq!(b.id, id),
        _ => panic!("expected a replay"),
    }
}

#[test]
fn settlement_of_each_reply() {
    let s = settle_payment(succeeded("ref_1")).unwrap();
    assert_eq!(s.state, PaymentState::Succeeded);
    assert_eq!(s.psp_reference_id.as_deref(), Some("ref_1"));
    assert!(s.error_message.is_none());

    let s = settle_payment(PspReply::Answered(PspResponse {
        status: "failed".to_string(),
        psp_ref: None,
        code: Some("card_declined".to_string()),
    }))
    .unwrap();
    assert_eq!(s.state, PaymentState::Failed);
    assert_eq!(s.error_message.as_deref(), Some("card_declined"));

    let s = settle_payment(PspReply::Rejected("400 Bad Request".to_string())).unwrap();
    assert_eq!(s.state, PaymentState::Failed);
    assert_eq!(s.error_message.as_deref(), Some("PSP Error: 400 Bad Request"));

    let s = settle_payment(PspReply::TimedOut).unwrap();
    assert_eq!(s.state, PaymentState::Pending);
    assert_eq!(s.error_message.as_deref(), Some("psp_timeout"));

    let s = settle_payment(PspReply::NetworkError("connection refused".to_string())).unwrap();
    assert_eq!(s.state, PaymentState::Failed);
    assert_eq!(s.error_message.as_deref(), Some("Network Error: connection refused"));

    match settle_payment(PspReply::Unreadable("bad json".to_string())) {
        Err(AppError::Internal(m)) => assert_eq!(m, "bad json"),
        _ => panic!("expected an internal error"),
    }
}

#[test]
fn invoice_and_event_after_settlement() {
    assert_eq!(invoice_state_after_payment(PaymentState::Succeeded), Some(InvoiceState::Paid));
    assert_eq!(invoice_state_after_payment(PaymentState::Failed), None);
    assert_eq!(invoice_state_after_payment(PaymentState::Pending), None);
    assert_eq!(
        payment_event(PaymentState::Succeeded),
        Some((WebhookEvent::InvoicePaid, EventSubject::Invoice))
    );
    assert_eq!(
        payment_event(PaymentState::Failed),
        Some((WebhookEvent::InvoicePaymentFailed, EventSubject::Attempt))
    );
    assert_eq!(payment_event(PaymentState::Pending), None);
}

#[test]
fn success_statuses_are_2xx() {
    assert!(success_status(200));
    assert!(success_status(204));
    assert!(success_status(299));
    assert!(!success_status(199));
    assert!(!success_status(300));
    assert!(!success_status(500));
}
