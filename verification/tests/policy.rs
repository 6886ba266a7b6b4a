use mpesa::{
    from_transport, BuilderError, ExponentialBackoff, MpesaError, ResponseError, RetryDecision,
    TransportFailure, RETRY_MIN_DELAY_MS,
};

fn service(code: &str, message: &str) -> MpesaError {
    MpesaError::Service(ResponseError {
        request_id: "rid".to_string(),
        error_code: code.to_string(),
        error_message: message.to_string(),
    })
}

#[test]
fn classify_transient_marker() {
    let d = MpesaError::TransientError.to_retryable();
    assert_eq!(d, RetryDecision::Transient(MpesaError::TransientError));
}

#[test]
fn classify_busy_codes_with_delay() {
    let e = service("500.003.02", "busy");
    assert_eq!(
        e.clone().to_retryable(),
        RetryDecision::TransientWithDelay(e, RETRY_MIN_DELAY_MS)
    );
    let e = service("500.003.03", "spike arrest");
    assert_eq!(
        e.clone().to_retryable(),
        RetryDecision::TransientWithDelay(e, RETRY_MIN_DELAY_MS)
    );
}

#[test]
fn classify_subscriber_lock_needs_message() {
    let locked = service("500.001.1001", "Unable to lock subscriber 254700000000");
    assert_eq!(
        locked.clone().to_retryable(),
        RetryDecision::TransientWithDelay(locked, RETRY_MIN_DELAY_MS)
    );
    let other = service("500.001.1001", "transaction failed");
    assert_eq!(other.clone().to_retryable(), RetryDecision::Permanent(other));
}

#[test]
fn classify_other_service_errors_permanent() {
    let e = service("1", "Invalid Access Token");
    assert_eq!(e.clone().to_retryable(), RetryDecision::Permanent(e));
}

#[test]
fn classify_other_kinds_permanent() {
    let network = MpesaError::NetworkError(TransportFailure {
        connect: false,
        timeout: false,
        message: "redirect loop".to_string(),
    });
    assert_eq!(network.clone().to_retryable(), RetryDecision::Permanent(network));
    assert_eq!(
        MpesaError::ParseError.to_retryable(),
        RetryDecision::Permanent(MpesaError::ParseError)
    );
    let builder = MpesaError::BuilderError(BuilderError::UninitializedField("amount"));
    assert_eq!(builder.clone().to_retryable(), RetryDecision::Permanent(builder));
}

#[test]
fn classify_is_a_pure_function_of_the_error() {
    let e = service("500.003.02", "busy");
    let first = e.clone().to_retryable();
    let second = e.clone().to_retryable();
    let third = e.to_retryable();
    assert_eq!(first, second);
    assert_eq!(second, third);
}

#[test]
fn from_transport_marks_connect_and_timeout_transient() {
    let connect = TransportFailure { connect: true, timeout: false, message: "c".to_string() };
    assert_eq!(from_transport(connect), MpesaError::TransientError);
    let timeout = TransportFailure { connect: false, timeout: true, message: "t".to_string() };
    assert_eq!(from_transport(timeout), MpesaError::TransientError);
    let other = TransportFailure { connect: false, timeout: false, message: "o".to_string() };
    assert_eq!(
        from_transport(other.clone()),
        MpesaError::NetworkError(other)
    );
}

#[test]
fn decision_unwraps_to_its_error() {
    let e = service("1", "boom");
    assert_eq!(MpesaError::from(RetryDecision::Permanent(e.clone())), e);
    assert_eq!(MpesaError::from(RetryDecision::Transient(e.clone())), e);
    assert_eq!(
        MpesaError::from(RetryDecision::TransientWithDelay(e.clone(), 1000)),
        e
    );
}

#[test]
fn backoff_grows_by_half_up_to_the_cap() {
    let mut b = ExponentialBackoff::new();
    assert_eq!(b.next_delay(0), Some(500));
    assert_eq!(b.next_delay(0), Some(750));
    assert_eq!(b.next_delay(0), Some(1125));
    let mut capped = ExponentialBackoff::with_params(50_000, 60_000, 900_000);
    assert_eq!(capped.next_delay(0), Some(50_000));
    assert_eq!(capped.next_delay(0), Some(60_000));
    assert_eq!(capped.next_delay(0), Some(60_000));
}

#[test]
fn backoff_honours_the_minimum_delay() {
    let mut b = ExponentialBackoff::new();
    assert_eq!(b.next_delay(1000), Some(1000));
    // the base interval still grew from 500 to 750
    assert_eq!(b.next_delay(0), Some(750));
}

#[test]
fn backoff_refuses_once_budget_is_spent() {
    let mut b = ExponentialBackoff::with_params(500, 60_000, 1200);
    assert_eq!(b.next_delay(0), Some(500));
    assert_eq!(b.next_delay(0), Some(750));
    // 1250ms granted so far exceeds the 1200ms budget
    assert_eq!(b.next_delay(0), None);
    assert_eq!(b.next_delay(0), None);
}

#[test]
fn builder_error_from_string_is_validation() {
    let e = BuilderError::from("PartyA".to_string());
    assert_eq!(e, BuilderError::ValidationError("PartyA".to_string()));
}

#[test]
fn builder_error_messages() {
    assert_eq!(
        BuilderError::UninitializedField("amount").message(),
        "Field [amount] is required"
    );
    assert_eq!(
        BuilderError::ValidationError("url".to_string()).message(),
        "Field [url] is invalid"
    );
}

#[test]
fn response_error_display_string() {
    let res = ResponseError {
        request_id: "r1".to_string(),
        error_code: "500.003.02".to_string(),
        error_message: "busy".to_string(),
    };
    assert_eq!(
        res.to_display_string(),
        "requestID: r1, errorCode:500.003.02, errorMessage:busy"
    );
}

#[test]
fn error_messages_name_their_kind() {
    let res = ResponseError {
        request_id: "r1".to_string(),
        error_code: "1".to_string(),
        error_message: "no".to_string(),
    };
    assert_eq!(
        MpesaError::Service(res).message(),
        "Service error: requestID: r1, errorCode:1, errorMessage:no"
    );
    assert_eq!(
        MpesaError::ParseError.message(),
        "An error has occurred while serializing/ deserializing"
    );
    assert_eq!(MpesaError::Message("custom").message(), "custom");
    assert_eq!(
        MpesaError::BuilderError(BuilderError::UninitializedField("amount")).message(),
        "An error has occurred while building the request: Field [amount] is required"
    );
}
