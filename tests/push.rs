use glia_core::endpoint::ingest_endpoint;
use glia_core::{perform_push, PushError, PushRequest, PushResult};

#[test]
fn test_perform_push_unreachable_host() {
    let result = perform_push("{}", "http://invalid.local", 100);
    assert!(result.is_err());
}

#[test]
fn push_to_closed_port_fails_with_transport_error() {
    let result = perform_push("{}", "http://127.0.0.1:1", 500);
    match result {
        Err(PushError::Transport(m)) => assert!(!m.is_empty()),
        Err(PushError::ClientConstruction(m)) => panic!("client was not built: {}", m),
        Ok(r) => panic!("unexpected response with status {}", r.status),
    }
}

#[test]
fn endpoint_with_and_without_trailing_slash_agree() {
    assert_eq!(ingest_endpoint("http://host/"), "http://host/ingest");
    assert_eq!(ingest_endpoint("http://host"), "http://host/ingest");
}

#[test]
fn endpoint_strips_every_trailing_slash_only() {
    assert_eq!(ingest_endpoint("http://host:8080/api///"), "http://host:8080/api/ingest");
    assert_eq!(ingest_endpoint("http://host/a/b"), "http://host/a/b/ingest");
    assert_eq!(ingest_endpoint("http://hôte/é/"), "http://hôte/é/ingest");
}

#[test]
fn endpoint_of_empty_or_slash_only_url() {
    assert_eq!(ingest_endpoint(""), "/ingest");
    assert_eq!(ingest_endpoint("///"), "/ingest");
}

#[test]
fn request_keeps_payload_verbatim() {
    let request = PushRequest::new(" {\"a\": 1} ", "http://collector/", 2500);
    assert_eq!(request.endpoint, "http://collector/ingest");
    assert_eq!(request.payload, " {\"a\": 1} ");
    assert_eq!(request.content_type, "application/json");
    assert_eq!(request.timeout_ms, 2500);
}

#[test]
fn exchange_success_scenario() {
    let r = PushResult::from_exchange(200, Some("{\"status\": \"success\"}".to_string()));
    assert_eq!(r.status, 200);
    assert_eq!(r.body, "{\"status\": \"success\"}");
}

#[test]
fn exchange_server_error_scenario_is_a_result() {
    let r = PushResult::from_exchange(500, Some("Internal Error".to_string()));
    assert_eq!(r.status, 500);
    assert_eq!(r.body, "Internal Error");
}

#[test]
fn exchange_with_body_keeps_status_and_body() {
    let r = PushResult::from_exchange(503, Some("busy".to_string()));
    assert_eq!(r.status, 503);
    assert_eq!(r.body, "busy");
}

#[test]
fn exchange_with_unreadable_body_reports_empty_body() {
    let r = PushResult::from_exchange(200, None);
    assert_eq!(r.status, 200);
    assert_eq!(r.body, "");
}

#[test]
fn outcome_response_is_kept() {
    let ok = PushResult { status: 500, body: "Internal Error".to_string() };
    let r = PushResult::from_outcome(Ok(ok));
    assert_eq!(r.status, 500);
    assert_eq!(r.body, "Internal Error");
}

#[test]
fn outcome_transport_failure_becomes_status_zero() {
    let r = PushResult::from_outcome(Err(PushError::Transport("connection refused".to_string())));
    assert_eq!(r.status, 0);
    assert_eq!(r.body, "connection refused");
}

#[test]
fn outcome_client_failure_becomes_status_zero() {
    let r = PushResult::from_outcome(Err(PushError::ClientConstruction("no TLS".to_string())));
    assert_eq!(r.status, 0);
    assert_eq!(r.body, "no TLS");
}

#[test]
fn error_message_is_carried_text() {
    assert_eq!(PushError::Transport("timed out".to_string()).message(), "timed out");
    assert_eq!(PushError::ClientConstruction("bad config".to_string()).message(), "bad config");
}

#[test]
fn unreachable_outcome_folds_to_sentinel() {
    let outcome = perform_push("{}", "http://invalid.local", 100);
    let message = match &outcome {
        Err(e) => e.message(),
        Ok(_) => panic!("an unresolvable host answered"),
    };
    let r = PushResult::from_outcome(outcome);
    assert_eq!(r.status, 0);
    assert_eq!(r.body, message);
}
