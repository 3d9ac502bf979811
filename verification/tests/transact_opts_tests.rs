use lighter_sdk::error::SdkError;
use lighter_sdk::types::transact_opts::{AttributeKind, L2TxAttributes, TransactOpts, WireAttribute};

#[test]
fn serializes_skip_nonce_as_numeric_attribute_key() {
    let attributes = L2TxAttributes {
        integrator_account_index: Some(7),
        skip_nonce: Some(1),
        ..L2TxAttributes::default()
    };

    let entries = attributes.wire_entries();
    let keys: Vec<&str> = entries.iter().map(|e| e.wire_key()).collect();
    assert_eq!(keys, vec!["1", "4"]);
    assert_eq!(entries, vec![WireAttribute::IntegratorAccountIndex(7), WireAttribute::SkipNonce(1)]);
}

fn read(entries: &[(&str, i64)]) -> L2TxAttributes {
    let mut a = L2TxAttributes::default();
    for (key, value) in entries {
        let entry = match AttributeKind::from_wire_key(key).unwrap() {
            AttributeKind::IntegratorAccountIndex => WireAttribute::IntegratorAccountIndex(*value),
            AttributeKind::IntegratorTakerFee => WireAttribute::IntegratorTakerFee(*value as u32),
            AttributeKind::IntegratorMakerFee => WireAttribute::IntegratorMakerFee(*value as u32),
            AttributeKind::SkipNonce => WireAttribute::SkipNonce(*value as u8),
        };
        a.set_wire_attribute(entry);
    }
    a
}

#[test]
fn deserializes_numeric_and_named_attribute_keys() {
    let numeric = read(&[("2", 10), ("4", 1)]);
    assert_eq!(
        numeric,
        L2TxAttributes {
            integrator_taker_fee: Some(10),
            skip_nonce: Some(1),
            ..L2TxAttributes::default()
        }
    );

    let named = read(&[("IntegratorAccountIndex", 11), ("IntegratorMakerFee", 9), ("SkipNonce", 1)]);
    assert_eq!(
        named,
        L2TxAttributes {
            integrator_account_index: Some(11),
            integrator_maker_fee: Some(9),
            skip_nonce: Some(1),
            ..L2TxAttributes::default()
        }
    );

    let zero_normalized = read(&[("1", 0), ("2", 0), ("3", 0), ("4", 1)]);
    assert_eq!(
        zero_normalized,
        L2TxAttributes {
            skip_nonce: Some(1),
            ..L2TxAttributes::default()
        }
    );
    assert!(AttributeKind::from_wire_key("5").is_none());
}

#[test]
fn validates_skip_nonce_and_integrator_fee_rules() {
    let invalid_skip_nonce = L2TxAttributes {
        skip_nonce: Some(2),
        ..L2TxAttributes::default()
    };
    assert!(matches!(invalid_skip_nonce.validate(), Err(SdkError::NonceSkipAttributeInvalid)));

    let fee_without_integrator = L2TxAttributes {
        integrator_taker_fee: Some(1),
        ..L2TxAttributes::default()
    };
    assert!(matches!(
        fee_without_integrator.validate(),
        Err(SdkError::IntegratorAccountIndexRequiredForNonZeroFees)
    ));

    let valid = L2TxAttributes {
        integrator_account_index: Some(12),
        integrator_taker_fee: Some(1),
        integrator_maker_fee: Some(2),
        skip_nonce: Some(1),
    };
    assert!(valid.validate().is_ok());
}

#[test]
fn zero_valued_attributes_are_treated_as_empty() {
    let attributes = L2TxAttributes {
        integrator_account_index: Some(0),
        integrator_taker_fee: Some(0),
        integrator_maker_fee: Some(0),
        skip_nonce: Some(0),
    };

    assert!(attributes.is_empty());
    assert!(attributes.wire_entries().is_empty());
}

#[test]
fn attribute_range_errors() {
    let a = L2TxAttributes { integrator_account_index: Some(-1), ..L2TxAttributes::default() };
    assert_eq!(a.validate(), Err(SdkError::IntegratorAccountIndexInvalidRange));
    let a = L2TxAttributes { integrator_account_index: Some(281474976710655), ..L2TxAttributes::default() };
    assert_eq!(a.validate(), Err(SdkError::IntegratorAccountIndexInvalidRange));
    let a = L2TxAttributes {
        integrator_account_index: Some(1),
        integrator_maker_fee: Some(1_000_001),
        ..L2TxAttributes::default()
    };
    assert_eq!(a.validate(), Err(SdkError::IntegratorFeeInvalidRange));
    let a = L2TxAttributes {
        integrator_account_index: Some(1),
        integrator_taker_fee: Some(1_000_000),
        ..L2TxAttributes::default()
    };
    assert!(a.validate().is_ok());
}

#[test]
fn skip_nonce_enabled_sets_only_the_flag() {
    let a = L2TxAttributes::skip_nonce_enabled();
    assert_eq!(a, L2TxAttributes { skip_nonce: Some(1), ..L2TxAttributes::default() });
    assert!(!a.is_empty());
    assert!(a.validate().is_ok());
    let d = TransactOpts::default();
    assert!(d.nonce.is_none() && d.tx_attributes.is_none() && !d.dry_run && d.expired_at == 0);
}

#[test]
fn wire_entries_read_back_give_the_attributes_without_zeros() {
    let a = L2TxAttributes {
        integrator_account_index: Some(5),
        integrator_taker_fee: Some(0),
        integrator_maker_fee: Some(3),
        skip_nonce: Some(1),
    };
    let mut back = L2TxAttributes::default();
    for e in a.wire_entries() {
        back.set_wire_attribute(e);
    }
    assert_eq!(
        back,
        L2TxAttributes {
            integrator_account_index: Some(5),
            integrator_taker_fee: None,
            integrator_maker_fee: Some(3),
            skip_nonce: Some(1),
        }
    );
}
