use lighter_sdk::config::Config;
use lighter_sdk::error::SdkError;
use lighter_sdk::ffi::{
    generated_api_key_from_parts, integrator_account_index, integrator_maker_fee,
    integrator_taker_fee, push_path, search_paths, signed_tx_from_parts, signer_load_failure,
    skip_nonce_flag, SignerPath,
};
use lighter_sdk::types::transact_opts::L2TxAttributes;

#[test]
fn host_names_choose_the_chain() {
    let main = Config::new("mainnet.zklighter.elliot.ai");
    assert_eq!(main.chain_id, 304);
    assert_eq!(main.host, "mainnet.zklighter.elliot.ai");
    assert!(main.use_ssl);
    assert_eq!(main.pool_size, 10);
    assert!(main.signer_lib_path.is_none() && main.proxy.is_none());
    assert_eq!(Config::new("testnet.zklighter.elliot.ai").chain_id, 300);
    assert_eq!(Config::new("localhost:8080").chain_id, 300);
}

#[test]
fn urls_follow_the_ssl_setting() {
    let c = Config::new("example.org");
    assert_eq!(c.api_base_url(), "https://example.org");
    assert_eq!(c.ws_base_url(), "wss://example.org/stream");
    let c = c.with_ssl(false);
    assert_eq!(c.api_base_url(), "http://example.org");
    assert_eq!(c.ws_base_url(), "ws://example.org/stream");
}

#[test]
fn builders_change_one_setting() {
    let c = Config::new("mainnet")
        .with_chain_id(1)
        .with_pool_size(3)
        .with_signer_lib_path("/opt/signer")
        .with_proxy("http://proxy:3128");
    assert_eq!(c.chain_id, 1);
    assert_eq!(c.pool_size, 3);
    assert_eq!(c.signer_lib_path.as_deref(), Some("/opt/signer"));
    assert_eq!(c.proxy.as_deref(), Some("http://proxy:3128"));
    assert_eq!(c.host, "mainnet");
    assert!(c.use_ssl);
}

#[test]
fn attribute_arguments_for_the_signer() {
    let none = L2TxAttributes::default();
    assert_eq!(integrator_account_index(&none), 0);
    assert_eq!(integrator_taker_fee(&none), 0);
    assert_eq!(integrator_maker_fee(&none), 0);
    assert_eq!(skip_nonce_flag(&none), 0);
    let some = L2TxAttributes {
        integrator_account_index: Some(12),
        integrator_taker_fee: Some(u32::MAX),
        integrator_maker_fee: Some(25),
        skip_nonce: Some(1),
    };
    assert_eq!(integrator_account_index(&some), 12);
    assert_eq!(integrator_taker_fee(&some), -1);
    assert_eq!(integrator_maker_fee(&some), 25);
    assert_eq!(skip_nonce_flag(&some), 1);
}

#[test]
fn signer_answers_become_results() {
    let ok = signed_tx_from_parts(14, Some("{}".to_string()), None, Some("m".to_string()), None).unwrap();
    assert_eq!(ok.tx_type, 14);
    assert_eq!(ok.tx_info, "{}");
    assert_eq!(ok.tx_hash, "");
    assert_eq!(ok.message_to_sign.as_deref(), Some("m"));
    let err = signed_tx_from_parts(14, Some("{}".to_string()), None, None, Some("bad key".to_string()));
    assert!(matches!(err, Err(SdkError::Ffi(m)) if m == "bad key"));
    let key = generated_api_key_from_parts(Some("priv".to_string()), None, None).unwrap();
    assert_eq!(key.private_key, "priv");
    assert_eq!(key.public_key, "");
    assert!(generated_api_key_from_parts(None, None, Some("e".to_string())).is_err());
}

fn texts(paths: &[SignerPath]) -> Vec<Vec<&str>> {
    paths.iter().map(|p| p.iter().map(|s| s.as_str()).collect()).collect()
}

#[test]
fn signer_lookup_order() {
    let f = "lighter-signer-linux-amd64.so";
    let paths = search_paths(Some(("/opt/signers", true)), Some(("/env/lib.so", false)), Some("/usr/bin"), f);
    assert_eq!(
        texts(&paths),
        vec![
            vec!["/opt/signers", f],
            vec!["/env/lib.so"],
            vec!["/usr/bin", f],
            vec!["/usr/bin", "signers", f],
            vec![f],
            vec!["signers", f],
        ]
    );
    let paths = search_paths(None, None, None, f);
    assert_eq!(texts(&paths), vec![vec![f], vec!["signers", f]]);
    let mut paths: Vec<SignerPath> = Vec::new();
    push_path(&mut paths, "/x/lib.so", false, f);
    push_path(&mut paths, "/x", true, f);
    assert_eq!(texts(&paths), vec![vec!["/x/lib.so"], vec!["/x", f]]);
}

#[test]
fn load_failures_are_joined() {
    let e = signer_load_failure(&vec!["a: missing".to_string(), "b: bad elf".to_string()]);
    assert_eq!(e, SdkError::SignerLoadFailed("a: missing | b: bad elf".to_string()));
    assert_eq!(signer_load_failure(&vec![]), SdkError::SignerLoadFailed(String::new()));
}

#[test]
fn error_texts() {
    assert_eq!(
        SdkError::Api { code: 21104, message: "invalid nonce".to_string() }.to_text(),
        "API error (code 21104): invalid nonce"
    );
    assert_eq!(SdkError::Ffi("boom".to_string()).to_text(), "FFI error: boom");
    assert_eq!(SdkError::AssetIndexTooLow.to_text(), "AssetIndex should not be less than 1");
    assert_eq!(SdkError::NonceTooLow.to_text(), "AccountNonce should not be less than 0");
    assert_eq!(SdkError::Other("plain".to_string()).to_text(), "plain");
    assert_eq!(
        SdkError::RateLimited { code: 429, message: "slow down".to_string() }.to_text(),
        "Rate limited (HTTP status 429): slow down"
    );
    assert_eq!(SdkError::NoApiKeys.to_text(), "No API keys provided");
}
