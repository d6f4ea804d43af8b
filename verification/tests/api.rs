use inv::api::auth::{bearer_token, check_bearer, constant_time_eq};
use inv::api::error::ApiError;
use inv::api::handlers::customers::ListQuery as CustomerListQuery;
use inv::api::handlers::invoices::{
    api_actor, mint_view_link, parse_state, send_route, view_url, ListQuery, SendRoute,
};
use inv::api::handlers::view::{view_invoice_id_at, view_transition};
use inv::api::signed_link::{sign, sign_with_expiry, verify, verify_at, VerifyError};
use inv::api::state::ApiConfig;
use inv::api::webhook::{signature_header, webhook_request, webhook_response, webhook_to_http};
use inv::commands::ctx::{Actor, UtcInstant};
use inv::commands::error::{CoreError, TransitionError};
use inv::domain::InvoiceState;

#[test]
fn matching_bytes_eq() {
    assert!(constant_time_eq(b"secret-token", b"secret-token"));
}

#[test]
fn mismatched_bytes_neq() {
    assert!(!constant_time_eq(b"secret-token", b"secret-tokeN"));
    assert!(!constant_time_eq(b"secret-token", b"Xecret-token"));
}

#[test]
fn different_lengths_neq() {
    assert!(!constant_time_eq(b"short", b"shorter"));
    assert!(!constant_time_eq(b"", b"x"));
    assert!(!constant_time_eq(b"abc", b"abcd"));
}

#[test]
fn empty_eq() {
    assert!(constant_time_eq(b"", b""));
}

#[test]
fn validation_maps_to_400() {
    let e: ApiError = CoreError::Validation("nope".into()).into();
    assert_eq!(e.status(), 400);
    assert_eq!(e.slug(), "validation");
}

#[test]
fn fsm_maps_to_409() {
    let e: ApiError = CoreError::FsmTransition(TransitionError::Illegal {
        state: InvoiceState::Issued,
        event: "issue".into(),
    })
    .into();
    assert_eq!(e.status(), 409);
}

#[test]
fn not_implemented_maps_to_501() {
    let e: ApiError = CoreError::NotImplemented("link://".into()).into();
    assert_eq!(e.status(), 501);
}

#[test]
fn round_trips() {
    let key = b"some-key";
    let t = sign("invoice_01abc", 600, key);
    let v = verify(&t, key).expect("verifies");
    assert_eq!(v.invoice_id, "invoice_01abc");
}

#[test]
fn expired_rejected() {
    let key = b"some-key";
    let t = sign("invoice_01abc", 600, key);
    let now = std::time::SystemTime::now()
        .duration_since(std::time::UNIX_EPOCH)
        .unwrap()
        .as_secs();
    let v = verify_at(&t, key, now + 3600);
    assert_eq!(v, Err(VerifyError::Expired));
}

#[test]
fn signed_link_expires_ttl_after_signing() {
    let before = std::time::SystemTime::now()
        .duration_since(std::time::UNIX_EPOCH)
        .unwrap()
        .as_secs();
    let t = sign("invoice_01abc", 600, b"k");
    let v = verify_at(&t, b"k", before).unwrap();
    assert!(v.expiry_unix >= before + 600 && v.expiry_unix <= before + 660);
    let forever = sign("invoice_01abc", u64::MAX, b"k");
    assert_eq!(verify_at(&forever, b"k", u64::MAX - 1).unwrap().expiry_unix, u64::MAX);
}

#[test]
fn tampered_signature_rejected() {
    let key = b"some-key";
    let t = sign("invoice_01abc", 600, key);
    let mut bytes = t.into_bytes();
    let last = bytes.last_mut().unwrap();
    *last = if *last == b'A' { b'B' } else { b'A' };
    let tampered = String::from_utf8(bytes).unwrap();
    assert!(verify(&tampered, key).is_err());
}

#[test]
fn wrong_key_rejected() {
    let t = sign("invoice_01abc", 600, b"key-a");
    assert_eq!(verify(&t, b"key-b"), Err(VerifyError::Mismatch));
}

#[test]
fn verify_at_accepts_before_expiry_and_reports_expiry() {
    let t = sign_with_expiry("invoice_01abc", 2_000, b"k");
    let v = verify_at(&t, b"k", 1_999).expect("still valid");
    assert_eq!(v.invoice_id, "invoice_01abc");
    assert_eq!(v.expiry_unix, 2_000);
    assert_eq!(verify_at(&t, b"k", 2_000), Err(VerifyError::Expired));
}

#[test]
fn verify_rejects_non_base64_token() {
    assert_eq!(verify_at("!!!", b"k", 0), Err(VerifyError::Base64));
}

#[test]
fn signature_is_sha256_prefixed() {
    let sig = signature_header(b"hello", b"key");
    assert!(sig.starts_with("sha256="));
    assert_eq!(sig.len(), "sha256=".len() + 64);
}

#[test]
fn signature_is_stable() {
    let a = signature_header(b"hello", b"key");
    let b = signature_header(b"hello", b"key");
    assert_eq!(a, b);
    assert!(a.starts_with("sha256="));
}

#[test]
fn signature_matches_rfc4231_case_2() {
    // HMAC-SHA256(key = "Jefe", data = "what do ya want for nothing?")
    let sig = signature_header(b"what do ya want for nothing?", b"Jefe");
    assert_eq!(
        sig,
        "sha256=5bdcc146bf60754e6a042426089575c75a003f089d2739839dec58b964ec3843"
    );
}

#[test]
fn webhook_to_https() {
    assert_eq!(
        webhook_to_http("webhook://example.com/hook").unwrap(),
        "https://example.com/hook"
    );
    assert_eq!(
        webhook_to_http("webhook+http://127.0.0.1:9000/hook").unwrap(),
        "http://127.0.0.1:9000/hook"
    );
    assert!(webhook_to_http("https://example.com/hook").is_err());
}

#[test]
fn webhook_request_targets_and_signs() {
    let r = webhook_request("webhook://h/x", b"body", b"k").unwrap();
    assert_eq!(r.target, "https://h/x");
    assert_eq!(r.signature, signature_header(b"body", b"k"));
    assert!(matches!(webhook_request("ftp://h", b"", b""), Err(ApiError::BadRequest(_))));
}

#[test]
fn webhook_response_judges_status() {
    assert!(webhook_response("https://h", 204, "204 No Content").is_ok());
    match webhook_response("https://h", 500, "500 Internal Server Error") {
        Err(ApiError::WebhookDispatch(m)) => {
            assert_eq!(m, "POST https://h: status 500 Internal Server Error")
        }
        other => panic!("unexpected {other:?}"),
    }
}

#[test]
fn bearer_header_parsing_and_check() {
    assert_eq!(bearer_token("Bearer abc").as_deref(), Some("abc"));
    let tokens = vec!["abc".to_string()];
    assert!(check_bearer(&tokens, Some("Bearer abc")).is_ok());
    assert_eq!(check_bearer(&tokens, Some("Bearer nope")), Err(ApiError::Unauthorized));
    assert_eq!(check_bearer(&tokens, None), Err(ApiError::Unauthorized));
    assert!(check_bearer(&[], None).is_ok());
}

#[test]
fn api_config_defaults() {
    let c = ApiConfig::default();
    assert_eq!(c.link_ttl_secs, 2_592_000);
    assert_eq!(c.public_base_url, "http://localhost:7400");
    assert!(c.bearer_tokens.is_empty());
}

#[test]
fn parse_state_accepts_wire_names_only() {
    assert_eq!(parse_state("partially_paid"), Ok(InvoiceState::PartiallyPaid));
    assert_eq!(parse_state("voided"), Ok(InvoiceState::Voided));
    assert_eq!(
        parse_state("bogus"),
        Err(ApiError::BadRequest("invalid invoice state `bogus`".into()))
    );
}

#[test]
fn invoice_list_query_filter() {
    let q = ListQuery {
        customer: Some(String::new()),
        state: Some("sent".into()),
        limit: Some(5),
        offset: None,
    };
    let f = q.filter().unwrap();
    assert_eq!(f.customer, None);
    assert_eq!(f.state, Some(InvoiceState::Sent));
    assert_eq!(f.limit, Some(5));
    let bad = ListQuery { state: Some("x".into()), ..ListQuery::default() };
    assert!(bad.filter().is_err());
}

#[test]
fn customer_page_clamps() {
    let q = CustomerListQuery { limit: None, offset: None };
    assert_eq!(q.page(), (100, 0));
    let q = CustomerListQuery { limit: Some(5000), offset: Some(-3) };
    assert_eq!(q.page(), (1000, 0));
    let q = CustomerListQuery { limit: Some(0), offset: Some(7) };
    assert_eq!(q.page(), (1, 7));
}

#[test]
fn send_routes_by_destination() {
    assert_eq!(send_route("link://"), Ok(SendRoute::Link));
    assert_eq!(send_route("webhook://h/x"), Ok(SendRoute::Webhook));
    assert_eq!(send_route("webhook+http://h/x"), Ok(SendRoute::Webhook));
    assert_eq!(send_route("file:///tmp/a.pdf"), Ok(SendRoute::Command));
    assert!(matches!(send_route("stdout"), Err(ApiError::BadRequest(_))));
}

#[test]
fn view_url_trims_trailing_slashes() {
    assert_eq!(view_url("http://h:1//", "tok"), "http://h:1/v/tok");
    assert_eq!(view_url("http://h", "tok"), "http://h/v/tok");
}

#[test]
fn minted_link_verifies() {
    let m = mint_view_link("invoice_9", 600, b"k", "http://h/");
    assert_eq!(m.expires_in_seconds, 600);
    assert_eq!(m.url, format!("http://h/v/{}", m.token));
    assert_eq!(verify(&m.token, b"k").unwrap().invoice_id, "invoice_9");
}

#[test]
fn view_advances_only_sent_invoices() {
    let now = UtcInstant { secs: 10, nanos: 0 };
    let t = view_transition(InvoiceState::Sent, "h1".into(), "inv1", now).unwrap();
    assert_eq!(t.history.from_state, Some(InvoiceState::Sent));
    assert_eq!(t.history.to_state, InvoiceState::Viewed);
    assert_eq!(t.history.event, "view");
    assert_eq!(t.history.actor.as_deref(), Some("link.viewer"));
    assert_eq!(t.event.channel, "api");
    assert!(view_transition(InvoiceState::Viewed, "h2".into(), "inv1", now).is_none());
}

#[test]
fn view_token_failures_are_invalid_link() {
    let t = sign_with_expiry("inv1", 100, b"k");
    assert_eq!(view_invoice_id_at(&t, b"k", 50), Ok("inv1".to_string()));
    assert_eq!(view_invoice_id_at(&t, b"k", 100), Err(ApiError::InvalidLink));
    assert_eq!(view_invoice_id_at(&t, b"other", 50), Err(ApiError::InvalidLink));
}

#[test]
fn api_actor_is_http() {
    assert_eq!(api_actor(), Actor::Api { name: "http".into() });
}

use inv::api::handlers::schedules::{select_schedules, ListQuery as ScheduleListQuery};
use inv::domain::ScheduleState;

#[test]
fn list_schedules_returns_all_seeded() {
    let rows = vec![
        ("c1".to_string(), ScheduleState::Active),
        ("c1".to_string(), ScheduleState::Paused),
        ("c2".to_string(), ScheduleState::Active),
    ];
    let all = ScheduleListQuery::default().filter().unwrap();
    assert_eq!(select_schedules(&rows, &all).len(), 3);
    let active = ScheduleListQuery { state: Some("active".into()), ..ScheduleListQuery::default() };
    assert_eq!(select_schedules(&rows, &active.filter().unwrap()).len(), 2);
    let c1 = ScheduleListQuery { customer_id: Some("c1".into()), ..ScheduleListQuery::default() };
    assert_eq!(select_schedules(&rows, &c1.filter().unwrap()), vec![0, 1]);
    let page = ScheduleListQuery { limit: Some(1), offset: Some(1), ..ScheduleListQuery::default() };
    assert_eq!(select_schedules(&rows, &page.filter().unwrap()), vec![1]);
    let bogus = ScheduleListQuery { state: Some("bogus".into()), ..ScheduleListQuery::default() };
    let e = bogus.filter().unwrap_err();
    assert_eq!(e.status(), 400);
    assert_eq!(e, ApiError::BadRequest("invalid schedule state `bogus`".into()));
    let past_end = ScheduleListQuery { offset: Some(9), ..ScheduleListQuery::default() };
    assert!(select_schedules(&rows, &past_end.filter().unwrap()).is_empty());
}
