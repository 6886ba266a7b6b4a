use mpesa::{ExponentialBackoff, MpesaError, SendEngine, SendPhase, TokenCache};

fn executing_engine() -> SendEngine {
    let mut cache = TokenCache::new();
    cache.write_token("tok".to_string(), 10_000);
    let eng = SendEngine::start(&cache, 0);
    assert_eq!(eng.phase, SendPhase::Executing);
    eng
}

#[test]
fn op_success_returns_body() {
    let mut eng = executing_engine();
    let d = eng.on_op_response(200, Some("application/json"), "{\"ResponseCode\":\"0\"}");
    assert_eq!(d, None);
    assert_eq!(eng.phase, SendPhase::Succeeded);
    assert_eq!(eng.result_body.as_deref(), Some("{\"ResponseCode\":\"0\"}"));
    assert_eq!(eng.op_calls, 1);
}

#[test]
fn op_malformed_success_body_fails_with_no_retry() {
    let mut eng = executing_engine();
    let d = eng.on_op_response(200, Some("application/json"), "definitely not json");
    assert_eq!(d, None);
    assert_eq!(eng.phase, SendPhase::Failed);
    assert_eq!(eng.error, Some(MpesaError::ParseError));
    assert_eq!(eng.op_calls, 1);
    // the surfaced description names the decode failure
    let msg = eng.error.unwrap().message();
    assert!(msg.contains("deserializing"));
}

#[test]
fn op_busy_code_is_retried_with_minimum_delay() {
    let mut eng = executing_engine();
    let body = "{\"requestID\":\"r1\",\"errorCode\":\"500.003.02\",\"errorMessage\":\"busy\"}";
    let d = eng.on_op_response(500, Some("application/json"), body);
    match d {
        Some(delay) => assert!(delay >= 1000),
        None => panic!("expected a retry delay"),
    }
    assert_eq!(eng.phase, SendPhase::Executing);
    // the retried attempt may then succeed
    let d2 = eng.on_op_response(200, None, "{}");
    assert_eq!(d2, None);
    assert_eq!(eng.phase, SendPhase::Succeeded);
    assert_eq!(eng.op_calls, 2);
}

#[test]
fn op_spike_arrest_code_is_retried_with_minimum_delay() {
    let mut eng = executing_engine();
    let body = "{\"requestID\":\"r2\",\"errorCode\":\"500.003.03\",\"errorMessage\":\"quota\"}";
    let d = eng.on_op_response(500, None, body);
    assert!(d.unwrap() >= 1000);
    assert_eq!(eng.phase, SendPhase::Executing);
}

#[test]
fn op_subscriber_lock_is_retried_with_minimum_delay() {
    let mut eng = executing_engine();
    let body = "{\"requestID\":\"r3\",\"errorCode\":\"500.001.1001\",\"errorMessage\":\"Unable to lock subscriber 254700000000\"}";
    let d = eng.on_op_response(409, None, body);
    assert!(d.unwrap() >= 1000);
    assert_eq!(eng.phase, SendPhase::Executing);
}

#[test]
fn op_lock_code_without_lock_message_is_permanent() {
    let mut eng = executing_engine();
    let body = "{\"requestID\":\"r4\",\"errorCode\":\"500.001.1001\",\"errorMessage\":\"something else\"}";
    let d = eng.on_op_response(409, None, body);
    assert_eq!(d, None);
    assert_eq!(eng.phase, SendPhase::Failed);
}

#[test]
fn op_other_service_error_fails_immediately() {
    let mut eng = executing_engine();
    let body = "{\"requestID\":\"r5\",\"errorCode\":\"1\",\"errorMessage\":\"Invalid Access Token\"}";
    let d = eng.on_op_response(401, None, body);
    assert_eq!(d, None);
    assert_eq!(eng.phase, SendPhase::Failed);
    assert_eq!(eng.op_calls, 1);
    match eng.error {
        Some(MpesaError::Service(res)) => {
            assert_eq!(res.request_id, "r5");
            assert_eq!(res.error_code, "1");
            assert_eq!(res.error_message, "Invalid Access Token");
        }
        other => panic!("expected a service error, got {:?}", other),
    }
}

#[test]
fn op_error_body_accepts_camel_case_request_id() {
    let mut eng = executing_engine();
    let body = "{\"requestId\":\"r6\",\"errorCode\":\"2\",\"errorMessage\":\"nope\"}";
    eng.on_op_response(400, None, body);
    match eng.error {
        Some(MpesaError::Service(res)) => assert_eq!(res.request_id, "r6"),
        other => panic!("expected a service error, got {:?}", other),
    }
}

#[test]
fn op_html_403_with_undecodable_body_is_retried() {
    let mut eng = executing_engine();
    let d = eng.on_op_response(403, Some("text/html"), "<html>blocked</html>");
    assert!(d.is_some());
    assert_eq!(eng.phase, SendPhase::Executing);
}

#[test]
fn op_503_with_any_body_is_retried() {
    let mut eng = executing_engine();
    let d = eng.on_op_response(503, None, "gateway down");
    assert!(d.is_some());
    assert_eq!(eng.phase, SendPhase::Executing);
}

#[test]
fn op_429_with_undecodable_body_is_retried() {
    let mut eng = executing_engine();
    let d = eng.on_op_response(429, Some("application/json"), "slow down");
    assert!(d.is_some());
    assert_eq!(eng.phase, SendPhase::Executing);
}

#[test]
fn op_undecodable_error_outside_heuristic_is_permanent() {
    let mut eng = executing_engine();
    let d = eng.on_op_response(500, Some("application/json"), "garbled");
    assert_eq!(d, None);
    assert_eq!(eng.phase, SendPhase::Failed);
    assert_eq!(eng.error, Some(MpesaError::ParseError));
}

#[test]
fn op_token_is_reused_across_retries() {
    let mut eng = executing_engine();
    let before = eng.token.clone();
    eng.on_op_response(503, None, "down");
    assert_eq!(eng.token, before);
    eng.on_op_response(503, None, "still down");
    assert_eq!(eng.token, before);
    assert_eq!(eng.auth_calls, 0);
    eng.on_op_response(200, None, "{}");
    assert_eq!(eng.token, before);
    assert_eq!(eng.phase, SendPhase::Succeeded);
}

#[test]
fn op_retry_stops_when_budget_is_spent() {
    let mut eng = executing_engine();
    eng.backoff = ExponentialBackoff::with_params(500, 60_000, 0);
    let body = "{\"requestID\":\"r7\",\"errorCode\":\"500.003.02\",\"errorMessage\":\"busy\"}";
    let d = eng.on_op_response(500, None, body);
    assert_eq!(d, None);
    assert_eq!(eng.phase, SendPhase::Failed);
    match eng.error {
        Some(MpesaError::Service(res)) => assert_eq!(res.error_code, "500.003.02"),
        other => panic!("expected the last service error, got {:?}", other),
    }
}

#[test]
fn op_transport_connect_failure_is_retried() {
    let mut eng = executing_engine();
    let d = eng.on_op_transport_error(mpesa::TransportFailure {
        connect: true,
        timeout: false,
        message: "conn refused".to_string(),
    });
    assert!(d.is_some());
    assert_eq!(eng.phase, SendPhase::Executing);
}

#[test]
fn op_transport_other_failure_is_permanent() {
    let mut eng = executing_engine();
    let failure = mpesa::TransportFailure {
        connect: false,
        timeout: false,
        message: "body read".to_string(),
    };
    let d = eng.on_op_transport_error(failure.clone());
    assert_eq!(d, None);
    assert_eq!(eng.phase, SendPhase::Failed);
    assert_eq!(eng.error, Some(MpesaError::NetworkError(failure)));
}
