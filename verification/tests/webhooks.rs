use payment_service::handlers::webhook::{register_webhook, RegisterWebhookRequest};
use payment_service::models::webhook::{DeliveryState, WebhookDelivery, WebhookEndpoint};
use payment_service::services::webhook_service::{
    deliver_webhook, delivery_request, event_envelope, needs_delivery, queue_webhook,
    record_delivery_attempt, retry_delay, signature_header, DeliveryAction, DeliveryEvent,
    DeliveryOutcome, DeliveryUpdate, WebhookEvent, MAX_DELIVERY_ATTEMPTS,
};

fn endpoint(id: &str, secret: &str) -> WebhookEndpoint {
    WebhookEndpoint {
        id: id.to_string(),
        business_id: "biz".to_string(),
        target_url: "https://example.test/hook".to_string(),
        secret: secret.to_string(),
        is_active: true,
        created_at: 0,
        updated_at: 0,
    }
}

#[test]
fn signature_is_hex_hmac_sha256() {
    // RFC 4231, test case 2.
    let sig = signature_header("Jefe", "what do ya want for nothing?");
    assert_eq!(sig, "sha256=5bdcc146bf60754e6a042426089575c75a003f089d2739839dec58b964ec3843");
    assert_eq!(sig.len(), 71);
}

fn delivery(state: DeliveryState, attempt_count: i32) -> WebhookDelivery {
    WebhookDelivery {
        id: "d1".to_string(),
        webhook_endpoint_id: "ep1".to_string(),
        event_type: "invoice.paid".to_string(),
        payload: "what do ya want for nothing?".to_string(),
        state,
        attempt_count,
        next_retry_at: 0,
        last_http_status: None,
        last_error: None,
        created_at: 0,
        updated_at: 0,
    }
}

#[test]
fn delivery_step_runs_fetch_send_record() {
    let d = delivery(DeliveryState::Pending, 0);
    match deliver_webhook(&d, DeliveryEvent::Loaded) {
        DeliveryAction::FetchEndpoint(id) => assert_eq!(id, "ep1"),
        _ => panic!("expected to fetch the endpoint"),
    }
    match deliver_webhook(&d, DeliveryEvent::EndpointFound(endpoint("ep1", "Jefe"))) {
        DeliveryAction::Send(req) => {
            assert_eq!(req.body, d.payload);
            assert_eq!(
                req.signature,
                "sha256=5bdcc146bf60754e6a042426089575c75a003f089d2739839dec58b964ec3843"
            );
        }
        _ => panic!("expected to send"),
    }
    match deliver_webhook(&d, DeliveryEvent::Answered { outcome: DeliveryOutcome::NotAccepted, now: 10 }) {
        DeliveryAction::Record(DeliveryUpdate::Retry { attempt_count, next_retry_at }) => {
            assert_eq!(attempt_count, 1);
            assert_eq!(next_retry_at, 10 + 30 * 1_000_000);
        }
        _ => panic!("expected a retry"),
    }
    match deliver_webhook(&d, DeliveryEvent::Answered { outcome: DeliveryOutcome::Accepted(200), now: 10 }) {
        DeliveryAction::Record(DeliveryUpdate::Delivered { http_status }) => assert_eq!(http_status, 200),
        _ => panic!("expected delivered"),
    }
    let last = delivery(DeliveryState::Pending, 4);
    assert!(matches!(
        deliver_webhook(&last, DeliveryEvent::Answered { outcome: DeliveryOutcome::NotAccepted, now: 10 }),
        DeliveryAction::Record(DeliveryUpdate::GaveUp { attempt_count: 5 })
    ));
}

#[test]
fn finished_deliveries_are_left_alone() {
    for state in [DeliveryState::Delivered, DeliveryState::Failed] {
        let d = delivery(state, 5);
        assert!(matches!(deliver_webhook(&d, DeliveryEvent::Loaded), DeliveryAction::LeaveAlone));
        assert!(matches!(
            deliver_webhook(&d, DeliveryEvent::EndpointFound(endpoint("ep1", "s"))),
            DeliveryAction::LeaveAlone
        ));
        assert!(matches!(
            deliver_webhook(&d, DeliveryEvent::Answered { outcome: DeliveryOutcome::NotAccepted, now: 0 }),
            DeliveryAction::LeaveAlone
        ));
    }
}

#[test]
fn delivery_request_signs_the_body_it_sends() {
    let ep = endpoint("ep1", "Jefe");
    let d = WebhookDelivery {
        id: "d1".to_string(),
        webhook_endpoint_id: "ep1".to_string(),
        event_type: "invoice.paid".to_string(),
        payload: "what do ya want for nothing?".to_string(),
        state: DeliveryState::Pending,
        attempt_count: 0,
        next_retry_at: 0,
        last_http_status: None,
        last_error: None,
        created_at: 0,
        updated_at: 0,
    };
    let r = delivery_request(&d, &ep);
    assert_eq!(r.target_url, "https://example.test/hook");
    assert_eq!(r.event_type, "invoice.paid");
    assert_eq!(r.body, d.payload);
    assert_eq!(r.signature, signature_header("Jefe", &r.body));
}

#[test]
fn only_pending_deliveries_are_attempted() {
    assert!(needs_delivery(DeliveryState::Pending));
    assert!(!needs_delivery(DeliveryState::Delivered));
    assert!(!needs_delivery(DeliveryState::Failed));
}

#[test]
fn accepted_delivery_is_delivered() {
    match record_delivery_attempt(2, DeliveryOutcome::Accepted(204), 0) {
        DeliveryUpdate::Delivered { http_status } => assert_eq!(http_status, 204),
        _ => panic!("expected delivered"),
    }
}

#[test]
fn failures_back_off_then_give_up_at_five() {
    let now: i64 = 1_700_000_000_000_000;
    let expected = [30i64, 300, 1800, 7200];
    let mut count = 0;
    for delay in expected {
        match record_delivery_attempt(count, DeliveryOutcome::NotAccepted, now) {
            DeliveryUpdate::Retry { attempt_count, next_retry_at } => {
                assert_eq!(attempt_count, count + 1);
                assert_eq!(next_retry_at, now + delay * 1_000_000);
                count = attempt_count;
            }
            _ => panic!("expected a retry"),
        }
    }
    match record_delivery_attempt(count, DeliveryOutcome::NotAccepted, now) {
        DeliveryUpdate::GaveUp { attempt_count } => assert_eq!(attempt_count, MAX_DELIVERY_ATTEMPTS),
        _ => panic!("expected to give up"),
    }
    assert_eq!(retry_delay(3), 1800);
    assert_eq!(retry_delay(0), 0);
}

#[test]
fn envelope_frames_event_data() {
    let e = event_envelope(WebhookEvent::InvoicePaid, "2024-01-01T00:00:00Z", "{\"id\":\"x\"}");
    assert_eq!(
        e,
        "{\"data\":{\"id\":\"x\"},\"event\":\"invoice.paid\",\"timestamp\":\"2024-01-01T00:00:00Z\"}"
    );
    let v: serde_json::Value = serde_json::from_str(&e).unwrap();
    assert_eq!(v["event"], "invoice.paid");
    assert_eq!(WebhookEvent::InvoiceCreated.name(), "invoice.created");
    assert_eq!(WebhookEvent::InvoicePaymentFailed.name(), "invoice.payment_failed");
}

#[test]
fn one_delivery_per_active_endpoint() {
    let mut off = endpoint("ep_off", "s0");
    off.is_active = false;
    let eps = vec![endpoint("ep1", "s1"), off, endpoint("ep2", "s2")];
    let ds = queue_webhook(&eps, WebhookEvent::InvoiceCreated, "2024-01-01T00:00:00Z", "{}");
    let framed = event_envelope(WebhookEvent::InvoiceCreated, "2024-01-01T00:00:00Z", "{}");
    assert_eq!(ds.len(), 2);
    assert_eq!(ds[0].webhook_endpoint_id, "ep1");
    assert_eq!(ds[1].webhook_endpoint_id, "ep2");
    assert!(ds.iter().all(|d| d.event_type == "invoice.created" && d.payload == framed && d.id.len() == 26));
    assert_ne!(ds[0].id, ds[1].id);
    assert!(queue_webhook(&vec![], WebhookEvent::InvoicePaid, "t", "{}").is_empty());
}

#[test]
fn registered_endpoint_has_hex_secret() {
    let ep = register_webhook("biz", &RegisterWebhookRequest { target_url: "https://h.test".to_string() });
    assert_eq!(ep.business_id, "biz");
    assert_eq!(ep.target_url, "https://h.test");
    assert_eq!(ep.secret.len(), 32);
    assert!(ep.secret.chars().all(|c| c.is_ascii_digit() || ('a'..='f').contains(&c)));
    assert_eq!(ep.id.len(), 26);
}
