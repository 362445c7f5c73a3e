use webhook_dispatcher::address::{IpAddress, SocketAddress};
use webhook_dispatcher::dispatcher::{
    DispatchAction, DispatchEvent, DispatchState, OutboundRequest, WebhookDispatcher,
};
use webhook_dispatcher::headers::build_headers;
use webhook_dispatcher::message::WebhookQueueMessage;
use webhook_dispatcher::outcome::{DispatchResult, HttpStatus};
use webhook_dispatcher::signature::sign_payload;

fn message(url: &str) -> WebhookQueueMessage {
    WebhookQueueMessage {
        job_id: "job-1".to_string(),
        team_id: "team-1".to_string(),
        scrape_id: None,
        webhook_url: url.to_string(),
        event: "crawl.page".to_string(),
        payload: "{\"n\":1}".to_string(),
        headers: vec![("X-Custom".to_string(), "yes".to_string())],
        timeout_ms: 2500,
        retry_count: 0,
    }
}

fn dispatcher() -> WebhookDispatcher {
    WebhookDispatcher::new("https://store.example", "tok")
}

fn addr(a: u8, b: u8, c: u8, d: u8, port: u16) -> SocketAddress {
    SocketAddress { ip: IpAddress::V4([a, b, c, d]), port }
}

fn no_secret() -> DispatchEvent {
    DispatchEvent::SecretAnswered { store_status: 406, body: "{}".to_string() }
}

fn with_secret(secret: &str) -> DispatchEvent {
    DispatchEvent::SecretAnswered {
        store_status: 200,
        body: format!("{{\"hmac_secret\":\"{}\"}}", secret),
    }
}

/// Runs the delivery up to the request, with the given lookup answer and candidates.
fn until_resolved(
    m: &WebhookQueueMessage,
    secret: DispatchEvent,
    addresses: Vec<SocketAddress>,
) -> (DispatchState, DispatchAction) {
    let d = dispatcher();
    let (s, a) = d.dispatch(m, DispatchState::Created, DispatchEvent::Started);
    assert_eq!(a, DispatchAction::FetchSecret { team_id: "team-1".to_string() });
    let (s, a) = d.dispatch(m, s, secret);
    assert!(matches!(a, DispatchAction::Resolve { .. }), "{:?}", a);
    d.dispatch(m, s, DispatchEvent::AddressesResolved { addresses })
}

fn sent(action: DispatchAction) -> OutboundRequest {
    match action {
        DispatchAction::Send(request) => request,
        other => panic!("no request: {:?}", other),
    }
}

fn finish(m: &WebhookQueueMessage, state: DispatchState, written: bool) -> DispatchAction {
    let (s, a) = dispatcher().dispatch(m, state, DispatchEvent::AuditDone { written });
    assert_eq!(s, DispatchState::Finished);
    a
}

fn respond(m: &WebhookQueueMessage, code: u16) -> (DispatchState, DispatchAction) {
    let (s, a) = until_resolved(m, no_secret(), vec![addr(93, 184, 216, 34, 443)]);
    assert!(matches!(a, DispatchAction::Send(_)));
    let status = HttpStatus::new(code).unwrap();
    dispatcher().dispatch(m, s, DispatchEvent::ResponseReceived { status })
}

#[test]
fn new_sets_store_endpoint_and_credentials() {
    let d = dispatcher();
    assert_eq!(d.rest_url, "https://store.example/rest/v1");
    assert_eq!(d.api_key, "tok");
    assert_eq!(d.authorization, "Bearer tok");
}

#[test]
fn loopback_destination_is_fatal_without_request() {
    let m = message("http://127.0.0.1/x");
    let d = dispatcher();
    let (s, _) = d.dispatch(&m, DispatchState::Created, DispatchEvent::Started);
    let (s, a) = d.dispatch(&m, s, no_secret());
    assert_eq!(a, DispatchAction::Resolve { host: "127.0.0.1".to_string(), port: 80 });
    let (s, a) = d.dispatch(&m, s, DispatchEvent::AddressesResolved { addresses: vec![addr(127, 0, 0, 1, 80)] });
    assert_eq!(s, DispatchState::AwaitingAudit { outcome: DispatchResult::FatalError });
    match a {
        DispatchAction::WriteAudit(log) => {
            assert!(!log.success);
            assert_eq!(log.status_code, None);
            assert_eq!(log.error, Some("Resolved to private/blocked IP".to_string()));
            assert_eq!(log.url, "http://127.0.0.1/x");
        }
        other => panic!("expected an audit record, got {:?}", other),
    }
    assert_eq!(finish(&m, s, true), DispatchAction::Complete(DispatchResult::FatalError));
}

#[test]
fn only_blocked_candidates_is_fatal() {
    let m = message("https://internal.example/hook");
    let blocked = vec![
        addr(10, 1, 2, 3, 443),
        addr(192, 168, 0, 1, 443),
        addr(169, 254, 169, 254, 443),
        SocketAddress { ip: IpAddress::V6([0xfd00, 0, 0, 0, 0, 0, 0, 1]), port: 443 },
    ];
    let (s, a) = until_resolved(&m, no_secret(), blocked);
    assert!(matches!(a, DispatchAction::WriteAudit(_)));
    assert_eq!(finish(&m, s, false), DispatchAction::Complete(DispatchResult::FatalError));
}

#[test]
fn no_candidates_is_fatal() {
    let m = message("https://example.com/hook");
    let (s, a) = until_resolved(&m, no_secret(), Vec::new());
    assert!(matches!(a, DispatchAction::WriteAudit(_)));
    assert_eq!(s, DispatchState::AwaitingAudit { outcome: DispatchResult::FatalError });
}

#[test]
fn request_is_pinned_to_first_public_candidate() {
    let m = message("https://example.com/hook");
    let candidates = vec![addr(10, 0, 0, 1, 443), addr(93, 184, 216, 34, 443), addr(1, 1, 1, 1, 443)];
    let (s, a) = until_resolved(&m, no_secret(), candidates);
    assert_eq!(s, DispatchState::AwaitingResponse);
    let request = sent(a);
    assert_eq!(request.target, addr(93, 184, 216, 34, 443));
    assert_eq!(request.host, "example.com");
    assert_eq!(request.url, "https://example.com/hook");
    assert_eq!(request.timeout_ms, 2500);
    assert_eq!(request.body, "{\"n\":1}");
}

#[test]
fn request_without_secret_has_no_signature() {
    let m = message("https://example.com/hook");
    let (_, a) = until_resolved(&m, no_secret(), vec![addr(93, 184, 216, 34, 443)]);
    let request = sent(a);
    assert_eq!(request.headers.get("content-type").unwrap(), "application/json");
    assert_eq!(request.headers.get("x-custom").unwrap(), "yes");
    assert!(request.headers.get("x-firecrawl-signature").is_none());
    assert_eq!(request.headers.len(), 2);
}

#[test]
fn outcome_does_not_depend_on_secret() {
    let m = message("https://example.com/hook");
    for code in [200u16, 404, 503] {
        let (s1, a1) = until_resolved(&m, no_secret(), vec![addr(93, 184, 216, 34, 443)]);
        let (s2, a2) = until_resolved(&m, with_secret("k"), vec![addr(93, 184, 216, 34, 443)]);
        assert_eq!(sent(a1).target, sent(a2).target);
        let status = HttpStatus::new(code).unwrap();
        let r1 = dispatcher().dispatch(&m, s1, DispatchEvent::ResponseReceived { status });
        let r2 = dispatcher().dispatch(&m, s2, DispatchEvent::ResponseReceived { status });
        assert_eq!(r1, r2);
    }
}

#[test]
fn request_with_secret_is_signed_over_body() {
    let m = message("https://example.com/hook");
    let (_, a) = until_resolved(&m, with_secret("s3cr3t"), vec![addr(93, 184, 216, 34, 443)]);
    let request = sent(a);
    let expected = sign_payload("s3cr3t", "{\"n\":1}");
    assert_eq!(request.headers.get("x-firecrawl-signature").unwrap(), expected.as_str());
    assert_eq!(request.headers.len(), 3);
}

#[test]
fn invalid_headers_are_skipped() {
    let mut m = message("https://example.com/hook");
    m.headers = vec![
        ("bad name".to_string(), "v".to_string()),
        ("".to_string(), "v".to_string()),
        ("X-Good".to_string(), "fine".to_string()),
        ("X-Bad-Value".to_string(), "line\nbreak".to_string()),
        ("X-Tab".to_string(), "a\tb".to_string()),
    ];
    let (_, a) = until_resolved(&m, no_secret(), vec![addr(93, 184, 216, 34, 443)]);
    let request = sent(a);
    assert_eq!(request.headers.get("x-good").unwrap(), "fine");
    assert_eq!(request.headers.get("x-tab").unwrap(), "a\tb");
    assert!(request.headers.get("x-bad-value").is_none());
    assert_eq!(request.headers.len(), 3);
}

#[test]
fn later_header_replaces_earlier_of_same_name() {
    let custom = vec![
        ("Content-Type".to_string(), "text/plain".to_string()),
        ("X-A".to_string(), "1".to_string()),
        ("x-a".to_string(), "2".to_string()),
        ("X-Firecrawl-Signature".to_string(), "forged".to_string()),
    ];
    let map = build_headers(&custom, Some("sha256=abc"));
    assert_eq!(map.get("content-type").unwrap(), "text/plain");
    assert_eq!(map.get("x-a").unwrap(), "2");
    assert_eq!(map.get("x-firecrawl-signature").unwrap(), "sha256=abc");
    assert_eq!(map.len(), 3);
    let unsigned = build_headers(&custom, None);
    assert_eq!(unsigned.get("x-firecrawl-signature").unwrap(), "forged");
}

#[test]
fn headers_of_empty_message() {
    let map = build_headers(&Vec::new(), None);
    assert_eq!(map.len(), 1);
    assert_eq!(map.get("content-type").unwrap(), "application/json");
}

#[test]
fn success_response_is_recorded_and_succeeds() {
    let m = message("https://example.com/hook");
    let (s, a) = respond(&m, 204);
    match a {
        DispatchAction::WriteAudit(log) => {
            assert!(log.success);
            assert_eq!(log.status_code, Some(204));
            assert_eq!(log.error, None);
        }
        other => panic!("{:?}", other),
    }
    assert_eq!(finish(&m, s, true), DispatchAction::Complete(DispatchResult::Success));
}

#[test]
fn not_found_is_fatal() {
    let m = message("https://example.com/hook");
    let (s, a) = respond(&m, 404);
    match a {
        DispatchAction::WriteAudit(log) => {
            assert!(!log.success);
            assert_eq!(log.status_code, Some(404));
            assert_eq!(log.error, Some("HTTP Status 404 Not Found".to_string()));
        }
        other => panic!("{:?}", other),
    }
    assert_eq!(finish(&m, s, true), DispatchAction::Complete(DispatchResult::FatalError));
}

#[test]
fn service_unavailable_is_retryable() {
    let m = message("https://example.com/hook");
    let (s, a) = respond(&m, 503);
    match a {
        DispatchAction::WriteAudit(log) => {
            assert!(!log.success);
            assert_eq!(log.status_code, Some(503));
            assert_eq!(log.error, Some("HTTP Status 503 Service Unavailable".to_string()));
        }
        other => panic!("{:?}", other),
    }
    assert_eq!(finish(&m, s, true), DispatchAction::Complete(DispatchResult::RetryableError));
}

#[test]
fn rate_limit_and_timeout_are_retryable() {
    let m = message("https://example.com/hook");
    let (s, _) = respond(&m, 429);
    assert_eq!(finish(&m, s, true), DispatchAction::Complete(DispatchResult::RetryableError));
    let (s, _) = respond(&m, 408);
    assert_eq!(finish(&m, s, true), DispatchAction::Complete(DispatchResult::RetryableError));
}

#[test]
fn unknown_status_has_placeholder_reason() {
    let m = message("https://example.com/hook");
    let (_, a) = respond(&m, 599);
    match a {
        DispatchAction::WriteAudit(log) => {
            assert_eq!(log.error, Some("HTTP Status 599 <unknown status code>".to_string()));
        }
        other => panic!("{:?}", other),
    }
}

#[test]
fn audit_failure_does_not_change_outcome() {
    let m = message("https://example.com/hook");
    for code in [200u16, 301, 500] {
        let (s, _) = respond(&m, code);
        let written = finish(&m, s.clone(), true);
        let lost = finish(&m, s, false);
        assert_eq!(written, lost);
    }
}

#[test]
fn transport_failure_is_retryable() {
    let m = message("https://example.com/hook");
    let (s, _) = until_resolved(&m, no_secret(), vec![addr(93, 184, 216, 34, 443)]);
    let event = DispatchEvent::SendFailed { failure_status: None, error: "operation timed out".to_string() };
    let (s, a) = dispatcher().dispatch(&m, s, event);
    match a {
        DispatchAction::WriteAudit(log) => {
            assert!(!log.success);
            assert_eq!(log.status_code, None);
            assert_eq!(log.error, Some("operation timed out".to_string()));
        }
        other => panic!("{:?}", other),
    }
    assert_eq!(finish(&m, s, true), DispatchAction::Complete(DispatchResult::RetryableError));
}

#[test]
fn transport_failure_keeps_its_status() {
    let m = message("https://example.com/hook");
    let (s, _) = until_resolved(&m, no_secret(), vec![addr(93, 184, 216, 34, 443)]);
    let event = DispatchEvent::SendFailed { failure_status: Some(502), error: "bad gateway".to_string() };
    let (_, a) = dispatcher().dispatch(&m, s, event);
    match a {
        DispatchAction::WriteAudit(log) => assert_eq!(log.status_code, Some(502)),
        other => panic!("{:?}", other),
    }
}

#[test]
fn unparsable_url_is_fatal() {
    let m = message("::not a url::");
    let d = dispatcher();
    let (s, _) = d.dispatch(&m, DispatchState::Created, DispatchEvent::Started);
    let (s, a) = d.dispatch(&m, s, no_secret());
    assert_eq!(s, DispatchState::AwaitingAudit { outcome: DispatchResult::FatalError });
    match a {
        DispatchAction::WriteAudit(log) => {
            assert!(!log.success);
            assert_eq!(log.error, Some("Invalid URL: relative URL without a base".to_string()));
        }
        other => panic!("{:?}", other),
    }
    assert_eq!(finish(&m, s, true), DispatchAction::Complete(DispatchResult::FatalError));
}

#[test]
fn url_without_host_is_fatal() {
    let m = message("mailto:someone@example.com");
    let d = dispatcher();
    let (s, _) = d.dispatch(&m, DispatchState::Created, DispatchEvent::Started);
    let (s, a) = d.dispatch(&m, s, with_secret("k"));
    match a {
        DispatchAction::WriteAudit(log) => assert_eq!(log.error, Some("URL missing host".to_string())),
        other => panic!("{:?}", other),
    }
    assert_eq!(finish(&m, s, true), DispatchAction::Complete(DispatchResult::FatalError));
}

#[test]
fn dns_failure_is_fatal() {
    let m = message("https://nowhere.invalid/hook");
    let d = dispatcher();
    let (s, _) = d.dispatch(&m, DispatchState::Created, DispatchEvent::Started);
    let (s, a) = d.dispatch(&m, s, no_secret());
    assert_eq!(a, DispatchAction::Resolve { host: "nowhere.invalid".to_string(), port: 443 });
    let (s, a) = d.dispatch(&m, s, DispatchEvent::ResolutionFailed { error: "no such host".to_string() });
    match a {
        DispatchAction::WriteAudit(log) => {
            assert_eq!(log.error, Some("DNS failed: no such host".to_string()));
            assert_eq!(log.status_code, None);
        }
        other => panic!("{:?}", other),
    }
    assert_eq!(finish(&m, s, true), DispatchAction::Complete(DispatchResult::FatalError));
}

#[test]
fn failed_secret_lookup_sends_unsigned() {
    let m = message("https://example.com/hook");
    let lookup = DispatchEvent::SecretLookupFailed { error: "refused".to_string() };
    let (s, a) = until_resolved(&m, lookup, vec![addr(93, 184, 216, 34, 443)]);
    assert_eq!(s, DispatchState::AwaitingResponse);
    let request = sent(a);
    assert!(request.headers.get("x-firecrawl-signature").is_none());
    assert_eq!(request.headers.get("content-type").unwrap(), "application/json");
    assert_eq!(request.body, "{\"n\":1}");
    let status = HttpStatus::new(200).unwrap();
    let (s, _) = dispatcher().dispatch(&m, s, DispatchEvent::ResponseReceived { status });
    assert_eq!(finish(&m, s, false), DispatchAction::Complete(DispatchResult::Success));
}

#[test]
fn unreachable_store_still_gives_fatal_for_blocked_host() {
    let m = message("http://127.0.0.1/x");
    let lookup = DispatchEvent::SecretLookupFailed { error: "connection refused".to_string() };
    let (s, a) = until_resolved(&m, lookup, vec![addr(127, 0, 0, 1, 80), addr(10, 0, 0, 7, 80)]);
    assert!(matches!(a, DispatchAction::WriteAudit(_)));
    assert_eq!(finish(&m, s, false), DispatchAction::Complete(DispatchResult::FatalError));
}

#[test]
fn failed_secret_lookup_with_bad_url_is_fatal() {
    let m = message("no url at all");
    let d = dispatcher();
    let (s, _) = d.dispatch(&m, DispatchState::Created, DispatchEvent::Started);
    let (s, a) = d.dispatch(&m, s, DispatchEvent::SecretLookupFailed { error: "x".to_string() });
    assert_eq!(s, DispatchState::AwaitingAudit { outcome: DispatchResult::FatalError });
    assert!(matches!(a, DispatchAction::WriteAudit(_)));
}

#[test]
fn header_names_are_filed_in_lower_case() {
    let custom = vec![
        ("X-UPPER_case.1".to_string(), "v".to_string()),
        ("x/slash".to_string(), "v".to_string()),
        ("caf\u{e9}".to_string(), "v".to_string()),
        ("X-Value".to_string(), "caf\u{e9}".to_string()),
        ("X-Del".to_string(), "a\u{7f}b".to_string()),
        ("!#$%&'*+-.^_`|~".to_string(), "ok".to_string()),
    ];
    let map = build_headers(&custom, None);
    assert_eq!(map.get("x-upper_case.1").unwrap(), "v");
    assert!(map.get("x-value").is_some());
    assert_eq!(map.get("x-value").unwrap().as_bytes(), "caf\u{e9}".as_bytes());
    assert!(map.get("x-del").is_none());
    assert!(map.get("!#$%&'*+-.^_`|~").is_some());
    assert_eq!(map.len(), 4);
}

#[test]
fn header_name_length_limits() {
    let longest = "a".repeat(65535);
    let too_long = "a".repeat(65536);
    let custom = vec![(longest.clone(), "v".to_string()), (too_long, "v".to_string())];
    let map = build_headers(&custom, None);
    assert!(map.get(longest.as_str()).is_some());
    assert_eq!(map.len(), 2);
}

#[test]
fn many_headers_fit() {
    let custom: Vec<(String, String)> =
        (0..6552).map(|i| (format!("x-h-{}", i), i.to_string())).collect();
    let map = build_headers(&custom, Some("sha256=00"));
    assert_eq!(map.len(), 6554);
    assert_eq!(map.get("x-h-6551").unwrap(), "6551");
    assert_eq!(map.get("x-firecrawl-signature").unwrap(), "sha256=00");
}

#[test]
fn client_failure_breaks_off() {
    let m = message("https://example.com/hook");
    let (s, _) = until_resolved(&m, no_secret(), vec![addr(93, 184, 216, 34, 443)]);
    let (s, a) = dispatcher().dispatch(&m, s, DispatchEvent::ClientFailed { error: "tls".to_string() });
    assert_eq!(s, DispatchState::Finished);
    assert_eq!(a, DispatchAction::Fail("Client build failed: tls".to_string()));
}

#[test]
fn event_out_of_turn_breaks_off() {
    let m = message("https://example.com/hook");
    let d = dispatcher();
    let status = HttpStatus::new(200).unwrap();
    let (s, a) = d.dispatch(&m, DispatchState::Created, DispatchEvent::ResponseReceived { status });
    assert_eq!(s, DispatchState::Finished);
    assert_eq!(a, DispatchAction::Fail("Unexpected event".to_string()));
    let (_, a) = d.dispatch(&m, DispatchState::Finished, DispatchEvent::Started);
    assert_eq!(a, DispatchAction::Fail("Unexpected event".to_string()));
    let (_, a) = d.dispatch(
        &m,
        DispatchState::AwaitingAudit { outcome: DispatchResult::Success },
        DispatchEvent::AddressesResolved { addresses: vec![addr(8, 8, 8, 8, 80)] },
    );
    assert_eq!(a, DispatchAction::Fail("Unexpected event".to_string()));
}

fn is_name_byte(b: u8) -> bool {
    b.is_ascii_alphanumeric() || b"!#$%&'*+-.^_`|~".contains(&b)
}

#[test]
fn every_single_byte_header_name() {
    for b in 0u8..=127 {
        let name = String::from_utf8(vec![b]).unwrap();
        let map = build_headers(&vec![(name.clone(), "v".to_string())], None);
        assert_eq!(map.len() == 2, is_name_byte(b), "byte {}", b);
        if is_name_byte(b) {
            let filed = name.to_ascii_lowercase();
            assert_eq!(map.keys().filter(|k| k.as_str() == filed).count(), 1, "byte {}", b);
        }
    }
    let map = build_headers(&vec![("\u{80}".to_string(), "v".to_string())], None);
    assert_eq!(map.len(), 1);
}

#[test]
fn every_single_byte_header_value() {
    for b in 0u8..=127 {
        let value = String::from_utf8(vec![b]).unwrap();
        let map = build_headers(&vec![("x-v".to_string(), value)], None);
        let accepted = b == 9 || (b >= 32 && b != 127);
        assert_eq!(map.get("x-v").is_some(), accepted, "byte {}", b);
    }
    let map = build_headers(&vec![("x-v".to_string(), "\u{80}\u{7ff}\u{ffff}".to_string())], None);
    assert!(map.get("x-v").is_some());
    let map = build_headers(&vec![("x-v".to_string(), "".to_string())], None);
    assert_eq!(map.get("x-v").unwrap(), "");
}

fn crowded(url: &str, count: usize) -> WebhookQueueMessage {
    let mut m = message(url);
    m.headers = (0..count).map(|i| (format!("x-h-{}", i), "v".to_string())).collect();
    m
}

#[test]
fn crowded_message_is_turned_down_like_any_other() {
    let m = crowded("http://127.0.0.1/x", 7000);
    let d = dispatcher();
    let (s, e) = (DispatchState::Created, DispatchEvent::Started);
    assert!(WebhookDispatcher::fits(&m, &s, &e));
    let (s, _) = d.dispatch(&m, s, e);
    let e = no_secret();
    assert!(WebhookDispatcher::fits(&m, &s, &e));
    let (s, a) = d.dispatch(&m, s, e);
    assert_eq!(a, DispatchAction::Resolve { host: "127.0.0.1".to_string(), port: 80 });
    let e = DispatchEvent::AddressesResolved { addresses: vec![addr(127, 0, 0, 1, 80)] };
    assert!(WebhookDispatcher::fits(&m, &s, &e));
    let (s, a) = d.dispatch(&m, s, e);
    assert!(matches!(a, DispatchAction::WriteAudit(_)));
    let e = DispatchEvent::AuditDone { written: false };
    assert!(WebhookDispatcher::fits(&m, &s, &e));
    let (_, a) = d.dispatch(&m, s, e);
    assert_eq!(a, DispatchAction::Complete(DispatchResult::FatalError));
}

#[test]
fn crowded_message_with_bad_url_is_fatal() {
    let m = crowded("nothing like a url", 10000);
    let d = dispatcher();
    let (s, _) = d.dispatch(&m, DispatchState::Created, DispatchEvent::Started);
    let (s, a) = d.dispatch(&m, s, no_secret());
    assert!(matches!(a, DispatchAction::WriteAudit(_)));
    assert_eq!(finish(&m, s, true), DispatchAction::Complete(DispatchResult::FatalError));
}

#[test]
fn crowded_message_response_and_audit_steps() {
    let m = crowded("https://example.com/hook", 7000);
    let d = dispatcher();
    let status = HttpStatus::new(503).unwrap();
    let e = DispatchEvent::ResponseReceived { status };
    assert!(WebhookDispatcher::fits(&m, &DispatchState::AwaitingResponse, &e));
    let (s, a) = d.dispatch(&m, DispatchState::AwaitingResponse, e);
    assert!(matches!(a, DispatchAction::WriteAudit(_)));
    assert_eq!(finish(&m, s, false), DispatchAction::Complete(DispatchResult::RetryableError));
    let e = DispatchEvent::SendFailed { failure_status: None, error: "timeout".to_string() };
    let (s, _) = d.dispatch(&m, DispatchState::AwaitingResponse, e);
    assert_eq!(finish(&m, s, true), DispatchAction::Complete(DispatchResult::RetryableError));
}

#[test]
fn request_step_takes_headers_up_to_the_bound() {
    let d = dispatcher();
    let state = |m: &WebhookQueueMessage| {
        let (s, _) = d.dispatch(m, DispatchState::Created, DispatchEvent::Started);
        d.dispatch(m, s, no_secret()).0
    };
    let public = DispatchEvent::AddressesResolved { addresses: vec![addr(10, 0, 0, 1, 443), addr(8, 8, 8, 8, 443)] };
    let blocked = DispatchEvent::AddressesResolved { addresses: vec![addr(10, 0, 0, 1, 443)] };
    let failed = DispatchEvent::ResolutionFailed { error: "x".to_string() };
    let full = crowded("https://example.com/hook", 6552);
    assert!(WebhookDispatcher::fits(&full, &state(&full), &public));
    let (_, a) = d.dispatch(&full, state(&full), public.clone());
    assert_eq!(sent(a).headers.len(), 6553);
    let over = crowded("https://example.com/hook", 6553);
    assert!(!WebhookDispatcher::fits(&over, &state(&over), &public));
    assert!(WebhookDispatcher::fits(&over, &state(&over), &blocked));
    assert!(WebhookDispatcher::fits(&over, &state(&over), &failed));
    assert!(WebhookDispatcher::fits(&over, &DispatchState::AwaitingResponse, &public));
}
