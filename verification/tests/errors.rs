use registration_relay::error::RelayError;
use registration_relay::health::{ResourceFailure, ResourceState};
use registration_relay::nac::nac_status;
use registration_relay::text::decimal_text;
use std::sync::Arc;
use tokio_tungstenite::tungstenite;

fn json_error() -> serde_json::Error {
    serde_json::from_str::<serde_json::Value>("{").unwrap_err()
}

fn plist_error() -> plist::Error {
    plist::from_bytes::<plist::Value>(b"this is no property list").unwrap_err()
}

fn request_error() -> reqwest::Error {
    reqwest::Client::new().get("not an address").build().unwrap_err()
}

#[test]
fn status_zero_is_success() {
    assert!(nac_status(0).is_ok());
}

#[test]
fn any_other_status_is_an_error_with_its_code() {
    assert!(matches!(nac_status(1), Err(RelayError::NacError(1))));
    assert!(matches!(nac_status(i32::MAX), Err(RelayError::NacError(2_147_483_647))));
    assert!(matches!(nac_status(-1), Err(RelayError::NacError(u64::MAX))));
    assert!(matches!(nac_status(-44023), Err(RelayError::NacError(18_446_744_073_709_507_593))));
    match nac_status(i32::MIN) {
        Err(RelayError::NacError(code)) => assert_eq!(code, i32::MIN as u64),
        _ => panic!("a non-zero status is an error"),
    }
}

#[test]
fn numbers_are_written_in_decimal() {
    assert_eq!(decimal_text(0), "0");
    assert_eq!(decimal_text(7), "7");
    assert_eq!(decimal_text(10), "10");
    assert_eq!(decimal_text(30), "30");
    assert_eq!(decimal_text(1_234_567_890), "1234567890");
    assert_eq!(decimal_text(u64::MAX), "18446744073709551615");
    for n in [9u64, 99, 100, 101, 4_096, 65_535, 1_000_000_007] {
        assert_eq!(decimal_text(n), n.to_string());
    }
}

#[test]
fn only_the_marked_error_forbids_retrying() {
    assert!(RelayError::DoNotRetry(Box::new(RelayError::ResourceTimeout)).do_not_retry());
    assert!(!RelayError::ResourceTimeout.do_not_retry());
    assert!(!RelayError::NacError(1).do_not_retry());
    assert!(!RelayError::ResourcePanic("x".to_string()).do_not_retry());
    assert!(!RelayError::JSONError(json_error()).do_not_retry());
    let inner = Arc::new(RelayError::DoNotRetry(Box::new(RelayError::ResourceTimeout)));
    assert!(!RelayError::ResourceFailure(inner).do_not_retry());
}

#[test]
fn own_errors_read_as_their_kind() {
    assert_eq!(RelayError::NacError(42).message(), "NAC error: 42");
    assert_eq!(RelayError::NacError(0).message(), "NAC error: 0");
    assert_eq!(RelayError::ResourceTimeout.message(), "Resource Timeout");
    assert_eq!(
        RelayError::ResourceFailure(Arc::new(RelayError::NacError(1))).message(),
        "Resource Failure"
    );
    assert_eq!(
        RelayError::ResourcePanic("bad response!".to_string()).message(),
        "Resource Panic bad response!"
    );
    assert_eq!(RelayError::ResourcePanic(String::new()).message(), "Resource Panic ");
}

#[test]
fn errors_from_outside_speak_for_themselves() {
    let said = json_error().to_string();
    assert_eq!(RelayError::JSONError(json_error()).message(), format!("JSON error: {said}"));
    let said = plist_error().to_string();
    assert_eq!(
        RelayError::PlistError(plist_error()).message(),
        format!("Plist parsing error: {said}")
    );
    let said = request_error().to_string();
    assert_eq!(RelayError::RequestError(request_error()).message(), format!("HTTP error: {said}"));
    let said = tungstenite::Error::ConnectionClosed.to_string();
    assert_eq!(
        RelayError::WSError(tungstenite::Error::ConnectionClosed).message(),
        format!("WS error: {said}")
    );
}

#[test]
fn a_marked_error_reads_as_the_mark_and_its_cause() {
    let marked = RelayError::DoNotRetry(Box::new(RelayError::NacError(7)));
    assert_eq!(marked.message(), "Do not retry NAC error: 7");
    let twice = RelayError::DoNotRetry(Box::new(marked));
    assert_eq!(twice.message(), "Do not retry Do not retry NAC error: 7");
    let said = json_error().to_string();
    let outside = RelayError::DoNotRetry(Box::new(RelayError::JSONError(json_error())));
    assert_eq!(outside.message(), format!("Do not retry JSON error: {said}"));
}

#[test]
fn errors_from_outside_convert_into_their_variant() {
    assert!(matches!(RelayError::from(json_error()), RelayError::JSONError(_)));
    assert!(matches!(RelayError::from(plist_error()), RelayError::PlistError(_)));
    assert!(matches!(RelayError::from(request_error()), RelayError::RequestError(_)));
    assert!(matches!(
        RelayError::from(tungstenite::Error::AlreadyClosed),
        RelayError::WSError(tungstenite::Error::AlreadyClosed)
    ));
    let shared = Arc::new(RelayError::NacError(3));
    match RelayError::from(shared.clone()) {
        RelayError::ResourceFailure(cause) => assert!(Arc::ptr_eq(&cause, &shared)),
        _ => panic!("a shared error converts into a ResourceFailure"),
    }
}

#[test]
fn a_failure_says_when_it_is_retried() {
    let failure = ResourceFailure { retry_wait: Some(16), error: Arc::new(RelayError::NacError(5)) };
    assert_eq!(failure.message(), "Failed to generate resource NAC error: 5; retrying in 16s");
    let failure = ResourceFailure { retry_wait: Some(0), error: Arc::new(RelayError::ResourceTimeout) };
    assert_eq!(failure.message(), "Failed to generate resource Resource Timeout; retrying in 0s");
}

#[test]
fn a_final_failure_says_that_it_is_not_retried() {
    let cause = RelayError::DoNotRetry(Box::new(RelayError::ResourcePanic("gone".to_string())));
    let failure = ResourceFailure { retry_wait: None, error: Arc::new(cause) };
    assert_eq!(
        failure.message(),
        "Failed to generate resource Do not retry Resource Panic gone; not retrying"
    );
}

#[test]
fn a_copy_of_a_failure_shares_its_cause() {
    let failure = ResourceFailure { retry_wait: Some(4), error: Arc::new(RelayError::NacError(5)) };
    let copy = failure.clone();
    assert_eq!(copy.retry_wait, Some(4));
    assert!(Arc::ptr_eq(&copy.error, &failure.error));
    match ResourceState::Failed(failure).clone() {
        ResourceState::Failed(again) => assert!(Arc::ptr_eq(&again.error, &copy.error)),
        _ => panic!("a copy of a failure is a failure"),
    }
    assert!(matches!(ResourceState::Generated.clone(), ResourceState::Generated));
    assert!(matches!(ResourceState::Generating.clone(), ResourceState::Generating));
}

#[test]
fn only_a_failure_without_a_delay_is_terminal() {
    let retried = ResourceFailure { retry_wait: Some(1), error: Arc::new(RelayError::NacError(5)) };
    let last = ResourceFailure { retry_wait: None, error: Arc::new(RelayError::NacError(5)) };
    assert!(!ResourceState::Failed(retried).terminal());
    assert!(ResourceState::Failed(last).terminal());
    assert!(!ResourceState::Generated.terminal());
    assert!(!ResourceState::Generating.terminal());
}
