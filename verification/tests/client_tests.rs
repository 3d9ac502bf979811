use lighter_sdk::client::{
    batch_payload, batch_result_action, explicit_key_and_nonce, json_number_array_text,
    normalize_api_keys, signing_failure_action, strip_hex_prefix, tx_result_action, NonceAction, CODE_INVALID_NONCE,
    CODE_OK,
};
use lighter_sdk::error::SdkError;
use lighter_sdk::ffi::SignedTx;

#[test]
fn nonce_action_after_a_single_transaction() {
    assert_eq!(tx_result_action(&Ok(CODE_OK)), NonceAction::Keep);
    assert_eq!(tx_result_action(&Ok(CODE_INVALID_NONCE)), NonceAction::HardRefresh);
    assert_eq!(tx_result_action(&Ok(500)), NonceAction::AcknowledgeFailure);
    assert_eq!(tx_result_action(&Err(SdkError::Json("eof".to_string()))), NonceAction::Keep);
    assert_eq!(
        tx_result_action(&Err(SdkError::Api { code: 400, message: "invalid nonce for key".to_string() })),
        NonceAction::HardRefresh
    );
    assert_eq!(
        tx_result_action(&Err(SdkError::Http("connection reset".to_string()))),
        NonceAction::AcknowledgeFailure
    );
    assert_eq!(
        tx_result_action(&Err(SdkError::Other("Invalid Nonce".to_string()))),
        NonceAction::AcknowledgeFailure
    );
    assert_eq!(
        tx_result_action(&Err(SdkError::Other("got invalid nonce".to_string()))),
        NonceAction::HardRefresh
    );
}

#[test]
fn nonce_action_after_a_batch() {
    assert_eq!(batch_result_action(&Ok(200)), NonceAction::Keep);
    assert_eq!(batch_result_action(&Ok(21104)), NonceAction::HardRefresh);
    assert_eq!(batch_result_action(&Ok(1)), NonceAction::AcknowledgeFailure);
    assert_eq!(batch_result_action(&Err(SdkError::Json("x".to_string()))), NonceAction::AcknowledgeFailure);
}

#[test]
fn explicit_key_and_nonce_needs_both() {
    assert_eq!(explicit_key_and_nonce(Some(2), Some(9)), Some((2, 9)));
    assert_eq!(explicit_key_and_nonce(Some(2), None), None);
    assert_eq!(explicit_key_and_nonce(None, Some(9)), None);
}

#[test]
fn private_keys_lose_their_hex_prefix() {
    assert_eq!(strip_hex_prefix("0xabc"), "abc");
    assert_eq!(strip_hex_prefix("abc"), "abc");
    assert_eq!(strip_hex_prefix("0X12"), "0X12");
    assert_eq!(strip_hex_prefix("0x"), "");
    let keys = normalize_api_keys(&vec![(1, "0xdead".to_string()), (2, "beef".to_string())]).unwrap();
    assert_eq!(keys, vec![(1, "dead".to_string()), (2, "beef".to_string())]);
    assert_eq!(normalize_api_keys(&vec![]), Err(SdkError::NoApiKeys));
}

fn signed(tx_type: u8, info: &str) -> SignedTx {
    SignedTx { tx_type, tx_info: info.to_string(), tx_hash: String::new(), message_to_sign: None }
}

#[test]
fn batch_payload_is_two_json_arrays() {
    let (types, infos) = batch_payload(&[signed(14, r#"{"a":1}"#), signed(15, "x\"y")]).unwrap();
    assert_eq!(types, "[14,15]");
    assert_eq!(infos, r#"["{\"a\":1}","x\"y"]"#);
    let (types, infos) = batch_payload(&[]).unwrap();
    assert_eq!(types, "[]");
    assert_eq!(infos, "[]");
    assert_eq!(json_number_array_text(&vec![0, 7, 255]), "[0,7,255]");
}

#[test]
fn batch_payload_escapes_backslashes_and_control_characters() {
    let info = "a\\b\n\t\r\u{8}\u{c}\u{1}\u{1f}\u{7f}é";
    let (types, infos) = batch_payload(&[signed(20, info)]).unwrap();
    assert_eq!(types, "[20]");
    assert_eq!(infos, "[\"a\\\\b\\n\\t\\r\\b\\f\\u0001\\u001f\u{7f}é\"]");
}

#[test]
fn normalized_keys_keep_their_indices() {
    let keys = normalize_api_keys(&vec![(3, "0x01".to_string()), (0, "0x".to_string()), (7, "ab".to_string())])
        .unwrap();
    assert_eq!(keys, vec![(3, "01".to_string()), (0, String::new()), (7, "ab".to_string())]);
}

#[test]
fn a_failed_signature_gives_back_only_a_managed_nonce() {
    assert_eq!(signing_failure_action(Some(2), Some(40)), NonceAction::Keep);
    assert_eq!(signing_failure_action(Some(2), None), NonceAction::AcknowledgeFailure);
    assert_eq!(signing_failure_action(None, Some(40)), NonceAction::AcknowledgeFailure);
    assert_eq!(signing_failure_action(None, None), NonceAction::AcknowledgeFailure);
}
