use vstd::prelude::*;
use crate::entropy::new_ulid;
use crate::text::{owned, text_eq};

verus! {

/// A charge request received by the mock card processor.
#[derive(Debug)]
pub struct MockPspRequest {
    pub token: String,
    pub amount_cents: i64,
}

/// The JSON answer of the mock card processor.
#[derive(Debug)]
pub struct MockPspResponse {
    pub status: String,
    pub psp_ref: Option<String>,
    pub code: Option<String>,
}

/// The body of an answer of the mock card processor.
#[derive(Debug)]
pub enum MockPspBody {
    Json(MockPspResponse),
    Text(String),
}

/// An answer of the mock card processor: sent after `delay_ms` milliseconds with
/// `http_status`.
#[derive(Debug)]
pub struct MockPspReply {
    pub http_status: u16,
    pub delay_ms: u64,
    pub body: MockPspBody,
}

/// A JSON answer with the given status, a fresh reference or none, and a code or none.
pub open spec fn json_reply(
    r: MockPspReply,
    http_status: u16,
    delay_ms: u64,
    status: Seq<char>,
    has_ref: bool,
    code: Option<Seq<char>>,
) -> bool {
    &&& r.http_status == http_status
    &&& r.delay_ms == delay_ms
    &&& r.body matches MockPspBody::Json(body) && {
        &&& body.status@ == status
        &&& (if has_ref {
            body.psp_ref matches Some(p) && p@.len() == 26
        } else {
            body.psp_ref is None
        })
        &&& match code {
            Some(c) => body.code matches Some(bc) && bc@ == c,
            None => body.code is None,
        }
    }
}

/// A plain-text answer, sent at once.
pub open spec fn text_reply(r: MockPspReply, http_status: u16, text: Seq<char>) -> bool {
    &&& r.http_status == http_status
    &&& r.delay_ms == 0
    &&& r.body matches MockPspBody::Text(t) && t@ == text
}

/// The test tokens are five different strings.
proof fn lemma_tokens_distinct()
    ensures
        "tok_success"@ != "tok_insufficient_funds"@,
        "tok_success"@ != "tok_card_declined"@,
        "tok_success"@ != "tok_timeout"@,
        "tok_success"@ != "tok_network_error"@,
        "tok_insufficient_funds"@ != "tok_card_declined"@,
        "tok_insufficient_funds"@ != "tok_timeout"@,
        "tok_insufficient_funds"@ != "tok_network_error"@,
        "tok_card_declined"@ != "tok_timeout"@,
        "tok_card_declined"@ != "tok_network_error"@,
        "tok_timeout"@ != "tok_network_error"@,
        "tok_fail"@ != "tok_success"@,
        "tok_fail"@ != "tok_insufficient_funds"@,
        "tok_fail"@ != "tok_card_declined"@,
        "tok_fail"@ != "tok_timeout"@,
        "tok_fail"@ != "tok_network_error"@,
{
    reveal_strlit("tok_fail");
    reveal_strlit("tok_success");
    reveal_strlit("tok_insufficient_funds");
    reveal_strlit("tok_card_declined");
    reveal_strlit("tok_timeout");
    reveal_strlit("tok_network_error");
    assert("tok_success"@[4] != "tok_timeout"@[4]);
    assert("tok_fail"@.len() != "tok_insufficient_funds"@.len());
    assert("tok_fail"@.len() != "tok_success"@.len());
    assert("tok_fail"@.len() != "tok_card_declined"@.len());
    assert("tok_card_declined"@[4] != "tok_network_error"@[4]);
}

/// The mock card processor's answer to a charge, chosen by the card token:
/// `tok_success` succeeds after 100 ms with a fresh reference; `tok_insufficient_funds`
/// and `tok_card_declined` fail after 100 ms with that code; `tok_fail` is a declined
/// card, answered as `tok_card_declined` is; `tok_timeout` succeeds only
/// after 30 s; `tok_network_error` is a 500 `Network Error`; any other token is a 400
/// `Invalid Token`.
pub fn charge(request: &MockPspRequest) -> (r: MockPspReply)
    ensures
        request.token@ == "tok_success"@ ==> json_reply(r, 200, 100, "succeeded"@, true, None),
        request.token@ == "tok_insufficient_funds"@ ==> json_reply(
            r,
            200,
            100,
            "failed"@,
            false,
            Some("insufficient_funds"@),
        ),
        request.token@ == "tok_card_declined"@ ==> json_reply(
            r,
            200,
            100,
            "failed"@,
            false,
            Some("card_declined"@),
        ),
        request.token@ == "tok_fail"@ ==> json_reply(
            r,
            200,
            100,
            "failed"@,
            false,
            Some("card_declined"@),
        ),
        request.token@ == "tok_timeout"@ ==> json_reply(r, 200, 30000, "succeeded"@, true, None),
        request.token@ == "tok_network_error"@ ==> text_reply(r, 500, "Network Error"@),
        request.token@ != "tok_success"@ && request.token@ != "tok_insufficient_funds"@
            && request.token@ != "tok_card_declined"@ && request.token@ != "tok_fail"@
            && request.token@ != "tok_timeout"@
            && request.token@ != "tok_network_error"@ ==> text_reply(r, 400, "Invalid Token"@),
{
    let t = request.token.as_str();
    proof {
        lemma_tokens_distinct();
    }
    if text_eq(t, "tok_success") {
        MockPspReply {
            http_status: 200,
            delay_ms: 100,
            body: MockPspBody::Json(
                MockPspResponse { status: owned("succeeded"), psp_ref: Some(new_ulid()), code: None },
            ),
        }
    } else if text_eq(t, "tok_insufficient_funds") {
        MockPspReply {
            http_status: 200,
            delay_ms: 100,
            body: MockPspBody::Json(
                MockPspResponse {
                    status: owned("failed"),
                    psp_ref: None,
                    code: Some(owned("insufficient_funds")),
                },
            ),
        }
    } else if text_eq(t, "tok_card_declined") || text_eq(t, "tok_fail") {
        MockPspReply {
            http_status: 200,
            delay_ms: 100,
            body: MockPspBody::Json(
                MockPspResponse {
                    status: owned("failed"),
                    psp_ref: None,
                    code: Some(owned("card_declined")),
                },
            ),
        }
    } else if text_eq(t, "tok_timeout") {
        MockPspReply {
            http_status: 200,
            delay_ms: 30000,
            body: MockPspBody::Json(
                MockPspResponse { status: owned("succeeded"), psp_ref: Some(new_ulid()), code: None },
            ),
        }
    } else if text_eq(t, "tok_network_error") {
        MockPspReply { http_status: 500, delay_ms: 0, body: MockPspBody::Text(owned("Network Error")) }
    } else {
        MockPspReply { http_status: 400, delay_ms: 0, body: MockPspBody::Text(owned("Invalid Token")) }
    }
}

} // verus!
