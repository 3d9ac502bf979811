use lighter_sdk::error::SdkError;
use lighter_sdk::rest::{classify_error_answer, error_envelope, error_from_answer, is_rate_limited_status};

#[test]
fn recognizes_supported_rate_limit_status_codes() {
    assert!(is_rate_limited_status(405));
    assert!(is_rate_limited_status(429));
    assert!(!is_rate_limited_status(400));
    assert!(!is_rate_limited_status(500));
}

#[test]
fn error_body_with_code_and_message_becomes_api_error() {
    let err = error_from_answer(400, r#"{"code":21104,"message":"invalid nonce"}"#.to_string());
    assert_eq!(err, SdkError::Api { code: 21104, message: "invalid nonce".to_string() });
}

#[test]
fn rate_limited_answer_keeps_status_and_body_message() {
    let err = error_from_answer(429, r#"{"code":23000,"message":"too many requests"}"#.to_string());
    assert_eq!(err, SdkError::RateLimited { code: 429, message: "too many requests".to_string() });
}

#[test]
fn non_json_body_is_kept_whole() {
    let err = error_from_answer(502, "bad gateway".to_string());
    assert_eq!(err, SdkError::Api { code: 502, message: "bad gateway".to_string() });
    let err = error_from_answer(405, "not allowed".to_string());
    assert_eq!(err, SdkError::RateLimited { code: 405, message: "not allowed".to_string() });
}

#[test]
fn json_body_without_integer_code_is_kept_whole() {
    let body = r#"{"code":"x","message":"m"}"#;
    let err = error_from_answer(500, body.to_string());
    assert_eq!(err, SdkError::Api { code: 500, message: body.to_string() });
    let body = r#"{"message":"m"}"#;
    let err = error_from_answer(500, body.to_string());
    assert_eq!(err, SdkError::Api { code: 500, message: body.to_string() });
}

#[test]
fn classification_of_a_given_envelope() {
    assert_eq!(
        classify_error_answer(418, "body".to_string(), Some((7, "seven".to_string()))),
        SdkError::Api { code: 7, message: "seven".to_string() }
    );
    assert_eq!(
        classify_error_answer(429, "body".to_string(), None),
        SdkError::RateLimited { code: 429, message: "body".to_string() }
    );
}

#[test]
fn error_envelope_needs_an_integer_code_and_a_string_message() {
    assert_eq!(
        error_envelope(r#"{"message":"bad","code":-3,"extra":[1]}"#),
        Some((-3, "bad".to_string()))
    );
    assert_eq!(error_envelope(r#"{"code":"7","message":"bad"}"#), None);
    assert_eq!(error_envelope(r#"{"code":7}"#), None);
    assert_eq!(error_envelope(r#"{"code":7,"message":null}"#), None);
    assert_eq!(error_envelope(r#"[7,"bad"]"#), None);
    assert_eq!(error_envelope("not json"), None);
    assert_eq!(error_envelope(r#"{"code":1.5,"message":"bad"}"#), None);
}
