use payment_service::handlers::mock_psp::{charge, MockPspBody, MockPspRequest};
use payment_service::models::payment_attempt::PaymentState;
use payment_service::services::payment_service::{settle_payment, success_status, PspReply, PspResponse};

fn req(token: &str) -> MockPspRequest {
    MockPspRequest { token: token.to_string(), amount_cents: 1000 }
}

#[test]
fn success_token() {
    let r = charge(&req("tok_success"));
    assert_eq!((r.http_status, r.delay_ms), (200, 100));
    match r.body {
        MockPspBody::Json(b) => {
            assert_eq!(b.status, "succeeded");
            assert_eq!(b.psp_ref.unwrap().len(), 26);
            assert!(b.code.is_none());
        }
        _ => panic!("expected JSON"),
    }
}

#[test]
fn declining_tokens() {
    for (tok, code) in [
        ("tok_insufficient_funds", "insufficient_funds"),
        ("tok_card_declined", "card_declined"),
        ("tok_fail", "card_declined"),
    ] {
        let r = charge(&req(tok));
        assert_eq!((r.http_status, r.delay_ms), (200, 100));
        match r.body {
            MockPspBody::Json(b) => {
                assert_eq!(b.status, "failed");
                assert!(b.psp_ref.is_none());
                assert_eq!(b.code.as_deref(), Some(code));
            }
            _ => panic!("expected JSON"),
        }
    }
}

#[test]
fn timeout_token_waits_thirty_seconds() {
    let r = charge(&req("tok_timeout"));
    assert_eq!((r.http_status, r.delay_ms), (200, 30000));
    assert!(matches!(r.body, MockPspBody::Json(b) if b.status == "succeeded"));
}

#[test]
fn error_tokens() {
    let r = charge(&req("tok_network_error"));
    assert_eq!((r.http_status, r.delay_ms), (500, 0));
    assert!(matches!(r.body, MockPspBody::Text(t) if t == "Network Error"));
    let r = charge(&req("tok_unknown"));
    assert_eq!(r.http_status, 400);
    assert!(matches!(r.body, MockPspBody::Text(t) if t == "Invalid Token"));
}

#[test]
fn declined_card_token_fails_payment() {
    // `tok_fail` simulates a declined card: the processor answers, and the charge fails.
    let r = charge(&req("tok_fail"));
    assert!(success_status(r.http_status));
    let body = match r.body {
        MockPspBody::Json(b) => b,
        _ => panic!("expected JSON"),
    };
    let s = settle_payment(PspReply::Answered(PspResponse {
        status: body.status,
        psp_ref: body.psp_ref,
        code: body.code,
    }))
    .unwrap();
    assert_eq!(s.state, PaymentState::Failed);
    assert_eq!(s.error_message.as_deref(), Some("card_declined"));
}
