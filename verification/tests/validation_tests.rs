use lighter_sdk::constants::{MAX_NONCE_EXCLUSIVE, TX_TYPE_L2_CREATE_SUB_ACCOUNT};
use lighter_sdk::error::SdkError;
use lighter_sdk::types::order_info::OrderInfo;
use lighter_sdk::types::transact_opts::L2TxAttributes;
use lighter_sdk::types::tx_info::{
    L2BurnSharesTxInfo, L2CancelAllOrdersTxInfo, L2CancelOrderTxInfo, L2ChangePubKeyTxInfo,
    L2CreateGroupedOrdersTxInfo, L2CreateOrderTxInfo, L2CreatePublicPoolTxInfo,
    L2CreateSubAccountTxInfo, L2MintSharesTxInfo, L2ModifyOrderTxInfo, L2TransferTxInfo,
    L2UpdateLeverageTxInfo, L2UpdateMarginTxInfo, L2UpdatePublicPoolTxInfo, L2WithdrawTxInfo,
    TxInfo,
};

fn valid_create_sub_account_tx(nonce: i64) -> L2CreateSubAccountTxInfo {
    L2CreateSubAccountTxInfo {
        account_index: 1,
        api_key_index: 0,
        expired_at: 1,
        nonce,
        sig: vec![],
        l2_tx_attributes: L2TxAttributes::default(),
        signed_hash: String::new(),
    }
}

#[test]
fn accepts_nonce_below_exclusive_upper_bound() {
    let tx = valid_create_sub_account_tx(MAX_NONCE_EXCLUSIVE - 1);

    assert!(tx.validate().is_ok());
}

#[test]
fn rejects_nonce_at_exclusive_upper_bound() {
    let tx = valid_create_sub_account_tx(MAX_NONCE_EXCLUSIVE);

    assert!(matches!(tx.validate(), Err(SdkError::NonceTooHigh)));
}

#[test]
fn common_field_errors() {
    let mut tx = valid_create_sub_account_tx(0);
    assert_eq!(tx.tx_type(), TX_TYPE_L2_CREATE_SUB_ACCOUNT);
    tx.nonce = -1;
    assert_eq!(tx.validate(), Err(SdkError::NonceTooLow));
    let mut tx = valid_create_sub_account_tx(0);
    tx.expired_at = -1;
    assert_eq!(tx.validate(), Err(SdkError::ExpiredAtInvalid));
    let mut tx = valid_create_sub_account_tx(0);
    tx.account_index = -1;
    assert_eq!(tx.validate(), Err(SdkError::AccountIndexTooLow));
    let mut tx = valid_create_sub_account_tx(0);
    tx.account_index = 140737488355328;
    assert_eq!(tx.validate(), Err(SdkError::AccountIndexTooHigh));
    let mut tx = valid_create_sub_account_tx(0);
    tx.api_key_index = 255;
    assert_eq!(tx.validate(), Err(SdkError::ApiKeyIndexTooHigh));
    let mut tx = valid_create_sub_account_tx(0);
    tx.l2_tx_attributes.skip_nonce = Some(3);
    assert_eq!(tx.validate(), Err(SdkError::NonceSkipAttributeInvalid));
    let mut tx = valid_create_sub_account_tx(0);
    tx.signed_hash = "0xabc".to_string();
    assert_eq!(tx.tx_hash(), "0xabc");
}

#[test]
fn change_pub_key_needs_a_full_length_key() {
    let tx = L2ChangePubKeyTxInfo {
        account_index: 1,
        api_key_index: 2,
        pub_key: vec![0; 40],
        l1_sig: String::new(),
        expired_at: 1,
        nonce: 1,
        sig: vec![],
        l2_tx_attributes: L2TxAttributes::default(),
        signed_hash: String::new(),
    };
    assert!(tx.validate().is_ok());
    let mut bad = tx.clone();
    bad.pub_key = vec![0; 39];
    assert_eq!(bad.validate(), Err(SdkError::PubKeyInvalid));
    let mut bad = tx.clone();
    bad.account_index = 281474976710655;
    assert_eq!(bad.validate(), Err(SdkError::AccountIndexTooHigh));
}

fn limit_order() -> OrderInfo {
    OrderInfo {
        market_index: 1,
        client_order_index: 5,
        base_amount: 100,
        price: 1000,
        is_ask: 0,
        order_type: 0,
        time_in_force: 1,
        reduce_only: 0,
        trigger_price: 0,
        order_expiry: 1_700_000_000_000,
    }
}

fn create_order(order_info: OrderInfo) -> L2CreateOrderTxInfo {
    L2CreateOrderTxInfo {
        account_index: 1,
        api_key_index: 0,
        order_info,
        expired_at: 1,
        nonce: 1,
        sig: vec![],
        l2_tx_attributes: L2TxAttributes::default(),
        signed_hash: String::new(),
    }
}

#[test]
fn create_order_rules() {
    assert!(create_order(limit_order()).validate().is_ok());
    let check = |f: &dyn Fn(&mut OrderInfo), e: SdkError| {
        let mut o = limit_order();
        f(&mut o);
        assert_eq!(create_order(o).validate(), Err(e));
    };
    check(&|o| o.market_index = 300, SdkError::InvalidMarketIndex);
    check(&|o| o.client_order_index = -2, SdkError::ClientOrderIndexTooLow);
    check(&|o| o.client_order_index = 281474976710656, SdkError::ClientOrderIndexTooHigh);
    check(&|o| o.base_amount = 0, SdkError::BaseAmountTooLow);
    check(&|o| o.base_amount = 281474976710656, SdkError::BaseAmountTooHigh);
    check(&|o| o.price = 0, SdkError::PriceTooLow);
    check(&|o| o.is_ask = 2, SdkError::IsAskInvalid);
    check(&|o| o.time_in_force = 3, SdkError::OrderTimeInForceInvalid);
    check(&|o| o.reduce_only = 2, SdkError::OrderReduceOnlyInvalid);
    check(&|o| o.order_expiry = -5, SdkError::OrderExpiryInvalid);
    check(&|o| o.trigger_price = 7, SdkError::OrderTriggerPriceInvalid);
    check(&|o| o.order_type = 9, SdkError::OrderTypeInvalid);
    // A market order must be immediate-or-cancel.
    check(&|o| o.order_type = 1, SdkError::OrderTimeInForceInvalid);
    // A stop loss is a perps order only.
    check(
        &|o| {
            o.market_index = 2048;
            o.order_type = 2;
        },
        SdkError::OrderTypeInvalid,
    );
    // Reduce-only is refused on a spot market.
    check(
        &|o| {
            o.market_index = 2048;
            o.reduce_only = 1;
        },
        SdkError::OrderReduceOnlyInvalid,
    );
    // A twap needs good-till-time.
    check(
        &|o| {
            o.order_type = 6;
            o.time_in_force = 0;
            o.order_expiry = 0;
        },
        SdkError::OrderTimeInForceInvalid,
    );
    let mut reduce_only_close = limit_order();
    reduce_only_close.reduce_only = 1;
    reduce_only_close.base_amount = 0;
    assert!(create_order(reduce_only_close).validate().is_ok());
}

fn grouped(grouping_type: u8, orders: Vec<OrderInfo>) -> L2CreateGroupedOrdersTxInfo {
    L2CreateGroupedOrdersTxInfo {
        account_index: 1,
        api_key_index: 0,
        grouping_type,
        orders,
        expired_at: 1,
        nonce: 1,
        sig: vec![],
        l2_tx_attributes: L2TxAttributes::default(),
        signed_hash: String::new(),
    }
}

fn child(order_type: u8, is_ask: u8) -> OrderInfo {
    OrderInfo {
        market_index: 1,
        client_order_index: 0,
        base_amount: 0,
        price: 900,
        is_ask,
        order_type,
        time_in_force: 0,
        reduce_only: 1,
        trigger_price: 950,
        order_expiry: 1_700_000_000_000,
    }
}

#[test]
fn grouped_order_rules() {
    let mut parent = limit_order();
    parent.client_order_index = 0;
    // One triggers the other: a limit parent and an opposite stop-loss child.
    assert!(grouped(1, vec![parent, child(2, 1)]).validate().is_ok());
    assert_eq!(grouped(1, vec![parent, child(2, 0)]).validate(), Err(SdkError::IsAskInvalid));
    let mut sized_child = child(2, 1);
    sized_child.base_amount = 5;
    assert_eq!(grouped(1, vec![parent, sized_child]).validate(), Err(SdkError::BaseAmountNotNil));
    // One triggers one-cancels-the-other: a stop loss and a take profit.
    assert!(grouped(3, vec![parent, child(2, 1), child(4, 1)]).validate().is_ok());
    assert_eq!(grouped(3, vec![parent, child(2, 1), child(2, 1)]).validate(), Err(SdkError::OrderTypeInvalid));
    // One cancels the other.
    let mut a = child(2, 1);
    a.base_amount = 10;
    let mut b = child(4, 1);
    b.base_amount = 10;
    assert!(grouped(2, vec![a, b]).validate().is_ok());
    b.base_amount = 11;
    assert_eq!(grouped(2, vec![a, b]).validate(), Err(SdkError::BaseAmountsNotEqual));
    // Group sizes, markets and client indices.
    assert_eq!(grouped(1, vec![]).validate(), Err(SdkError::OrderGroupSizeInvalid));
    assert_eq!(grouped(2, vec![a]).validate(), Err(SdkError::OrderGroupSizeInvalid));
    let mut other_market = child(2, 1);
    other_market.market_index = 2;
    assert_eq!(grouped(1, vec![parent, other_market]).validate(), Err(SdkError::MarketIndexMismatch));
    let mut spot_parent = parent;
    spot_parent.market_index = 2048;
    assert_eq!(grouped(1, vec![spot_parent]).validate(), Err(SdkError::InvalidMarketIndex));
    assert_eq!(grouped(1, vec![limit_order()]).validate(), Err(SdkError::ClientOrderIndexNotNil));
    assert_eq!(grouped(0, vec![parent]).validate(), Err(SdkError::GroupingTypeInvalid));
}

#[test]
fn cancel_and_modify_order_rules() {
    let cancel = L2CancelOrderTxInfo {
        account_index: 1,
        api_key_index: 0,
        market_index: 0,
        index: 1,
        expired_at: 1,
        nonce: 1,
        sig: vec![],
        l2_tx_attributes: L2TxAttributes::default(),
        signed_hash: String::new(),
    };
    assert!(cancel.validate().is_ok());
    let mut c = cancel.clone();
    c.index = 0;
    assert_eq!(c.validate(), Err(SdkError::OrderIndexTooLow));
    c.index = 1152921504606846976;
    assert_eq!(c.validate(), Err(SdkError::OrderIndexTooHigh));

    let modify = L2ModifyOrderTxInfo {
        account_index: 1,
        api_key_index: 0,
        market_index: 0,
        index: 1,
        base_amount: 0,
        price: 1,
        trigger_price: 0,
        expired_at: 1,
        nonce: 1,
        sig: vec![],
        l2_tx_attributes: L2TxAttributes::default(),
        signed_hash: String::new(),
    };
    assert!(modify.validate().is_ok());
    let mut m = modify.clone();
    m.index = 0;
    assert_eq!(m.validate(), Err(SdkError::ClientOrderIndexTooLow));
    let mut m = modify.clone();
    m.index = 1152921504606846976;
    assert_eq!(m.validate(), Err(SdkError::ClientOrderIndexTooHigh));
    let mut m = modify.clone();
    m.base_amount = -1;
    assert_eq!(m.validate(), Err(SdkError::BaseAmountTooLow));
    let mut m = modify.clone();
    m.price = 0;
    assert_eq!(m.validate(), Err(SdkError::PriceTooLow));
}

#[test]
fn cancel_all_orders_rules() {
    let tx = L2CancelAllOrdersTxInfo {
        account_index: 1,
        api_key_index: 255,
        time_in_force: 0,
        time: 0,
        expired_at: 1,
        nonce: 1,
        sig: vec![],
        l2_tx_attributes: L2TxAttributes::default(),
        signed_hash: String::new(),
    };
    assert!(tx.validate().is_ok());
    let mut t = tx.clone();
    t.time = 5;
    assert_eq!(t.validate(), Err(SdkError::CancelAllTimeIsNotNil));
    let mut t = tx.clone();
    t.time_in_force = 1;
    assert_eq!(t.validate(), Err(SdkError::CancelAllTimeIsNotInRange));
    t.time = 5;
    assert!(t.validate().is_ok());
    let mut t = tx.clone();
    t.time_in_force = 3;
    assert_eq!(t.validate(), Err(SdkError::InvalidCancelAllTimeInForce));
}

#[test]
fn transfer_and_withdraw_rules() {
    let tx = L2TransferTxInfo {
        from_account_index: 1,
        api_key_index: 0,
        to_account_index: 2,
        asset_index: 3,
        from_route_type: 0,
        to_route_type: 1,
        amount: 10,
        usdc_fee: 0,
        memo: [0; 32],
        expired_at: 1,
        nonce: 1,
        sig: vec![],
        l1_sig: String::new(),
        l2_tx_attributes: L2TxAttributes::default(),
        signed_hash: String::new(),
    };
    assert!(tx.validate().is_ok());
    let cases: Vec<(Box<dyn Fn(&mut L2TransferTxInfo)>, SdkError)> = vec![
        (Box::new(|t| t.from_account_index = 0), SdkError::FromAccountIndexTooLow),
        (Box::new(|t| t.from_account_index = 281474976710655), SdkError::FromAccountIndexTooHigh),
        (Box::new(|t| t.to_account_index = -1), SdkError::ToAccountIndexTooLow),
        (Box::new(|t| t.to_account_index = 281474976710655), SdkError::ToAccountIndexTooHigh),
        (Box::new(|t| t.asset_index = 0), SdkError::AssetIndexTooLow),
        (Box::new(|t| t.asset_index = 63), SdkError::AssetIndexTooHigh),
        (Box::new(|t| t.to_route_type = 2), SdkError::RouteTypeInvalid),
        (Box::new(|t| t.amount = 0), SdkError::TransferAmountTooLow),
        (Box::new(|t| t.amount = 1152921504606846976), SdkError::TransferAmountTooHigh),
        (Box::new(|t| t.usdc_fee = -1), SdkError::TransferFeeNegative),
        (Box::new(|t| t.usdc_fee = 1152921504606846976), SdkError::TransferFeeTooHigh),
    ];
    for (change, expected) in cases {
        let mut t = tx.clone();
        change(&mut t);
        assert_eq!(t.validate(), Err(expected));
    }

    let w = L2WithdrawTxInfo {
        from_account_index: 0,
        api_key_index: 0,
        asset_index: 3,
        route_type: 0,
        amount: 1,
        expired_at: 1,
        nonce: 1,
        sig: vec![],
        l2_tx_attributes: L2TxAttributes::default(),
        signed_hash: String::new(),
    };
    assert!(w.validate().is_ok());
    let mut x = w.clone();
    x.amount = 0;
    assert_eq!(x.validate(), Err(SdkError::WithdrawalAmountTooLow));
    let mut x = w.clone();
    x.amount = 1152921504606846976;
    assert_eq!(x.validate(), Err(SdkError::WithdrawalAmountTooHigh));
    let mut x = w.clone();
    x.route_type = 9;
    assert_eq!(x.validate(), Err(SdkError::RouteTypeInvalid));
}

#[test]
fn public_pool_rules() {
    let create = L2CreatePublicPoolTxInfo {
        account_index: 1,
        api_key_index: 0,
        operator_fee: 100,
        initial_total_shares: 1000,
        min_operator_share_rate: 100,
        expired_at: 1,
        nonce: 1,
        sig: vec![],
        l2_tx_attributes: L2TxAttributes::default(),
        signed_hash: String::new(),
    };
    assert!(create.validate().is_ok());
    let mut c = create.clone();
    c.operator_fee = 1_000_001;
    assert_eq!(c.validate(), Err(SdkError::InvalidPoolOperatorFee));
    let mut c = create.clone();
    c.initial_total_shares = 0;
    assert_eq!(c.validate(), Err(SdkError::PoolInitialTotalSharesTooLow));
    let mut c = create.clone();
    c.initial_total_shares = 1_000_000_000_001;
    assert_eq!(c.validate(), Err(SdkError::PoolInitialTotalSharesTooHigh));
    let mut c = create.clone();
    c.min_operator_share_rate = 10_001;
    assert_eq!(c.validate(), Err(SdkError::PoolMinOperatorShareRateTooHigh));

    let update = L2UpdatePublicPoolTxInfo {
        account_index: 1,
        api_key_index: 0,
        public_pool_index: 5,
        status: 1,
        operator_fee: 0,
        min_operator_share_rate: 0,
        expired_at: 1,
        nonce: 1,
        sig: vec![],
        l2_tx_attributes: L2TxAttributes::default(),
        signed_hash: String::new(),
    };
    assert!(update.validate().is_ok());
    let mut u = update.clone();
    u.status = 2;
    assert_eq!(u.validate(), Err(SdkError::InvalidPoolStatus));
    let mut u = update.clone();
    u.public_pool_index = -1;
    assert_eq!(u.validate(), Err(SdkError::PublicPoolIndexTooLow));
    let mut u = update.clone();
    u.public_pool_index = 281474976710655;
    assert_eq!(u.validate(), Err(SdkError::PublicPoolIndexTooHigh));

    let mint = L2MintSharesTxInfo {
        account_index: 1,
        api_key_index: 0,
        public_pool_index: 5,
        share_amount: 1,
        expired_at: 1,
        nonce: 1,
        sig: vec![],
        l2_tx_attributes: L2TxAttributes::default(),
        signed_hash: String::new(),
    };
    assert!(mint.validate().is_ok());
    let mut m = mint.clone();
    m.share_amount = 0;
    assert_eq!(m.validate(), Err(SdkError::PoolMintShareAmountTooLow));
    m.share_amount = 1152921504606846976;
    assert_eq!(m.validate(), Err(SdkError::PoolMintShareAmountTooHigh));

    let burn = L2BurnSharesTxInfo {
        account_index: 1,
        api_key_index: 0,
        public_pool_index: 5,
        share_amount: 1,
        expired_at: 1,
        nonce: 1,
        sig: vec![],
        l2_tx_attributes: L2TxAttributes::default(),
        signed_hash: String::new(),
    };
    assert!(burn.validate().is_ok());
    let mut b = burn.clone();
    b.share_amount = 0;
    assert_eq!(b.validate(), Err(SdkError::PoolBurnShareAmountTooLow));
    b.share_amount = 1152921504606846976;
    assert_eq!(b.validate(), Err(SdkError::PoolBurnShareAmountTooHigh));
}

#[test]
fn leverage_and_margin_rules() {
    let lev = L2UpdateLeverageTxInfo {
        account_index: 1,
        api_key_index: 0,
        market_index: 0,
        initial_margin_fraction: 500,
        margin_mode: 0,
        expired_at: 1,
        nonce: 1,
        sig: vec![],
        l2_tx_attributes: L2TxAttributes::default(),
        signed_hash: String::new(),
    };
    assert!(lev.validate().is_ok());
    let mut l = lev.clone();
    l.market_index = 2048;
    assert_eq!(l.validate(), Err(SdkError::InvalidMarketIndex));
    let mut l = lev.clone();
    l.margin_mode = 2;
    assert_eq!(l.validate(), Err(SdkError::InvalidMarginMode));
    let mut l = lev.clone();
    l.initial_margin_fraction = 0;
    assert_eq!(l.validate(), Err(SdkError::InitialMarginFractionTooLow));
    l.initial_margin_fraction = 10_001;
    assert_eq!(l.validate(), Err(SdkError::InitialMarginFractionTooHigh));

    let margin = L2UpdateMarginTxInfo {
        account_index: 1,
        api_key_index: 0,
        market_index: 0,
        usdc_amount: 10,
        direction: 1,
        expired_at: 1,
        nonce: 1,
        sig: vec![],
        l2_tx_attributes: L2TxAttributes::default(),
        signed_hash: String::new(),
    };
    assert!(margin.validate().is_ok());
    let mut m = margin.clone();
    m.direction = 2;
    assert_eq!(m.validate(), Err(SdkError::InvalidUpdateMarginDirection));
    let mut m = margin.clone();
    m.usdc_amount = 0;
    assert_eq!(m.validate(), Err(SdkError::TransferAmountTooLow));
}

#[test]
fn skipping_a_nonce_does_not_lift_the_bound() {
    let mut tx = valid_create_sub_account_tx(MAX_NONCE_EXCLUSIVE);
    tx.l2_tx_attributes = L2TxAttributes::skip_nonce_enabled();
    assert_eq!(tx.validate(), Err(SdkError::NonceTooHigh));
    tx.nonce = MAX_NONCE_EXCLUSIVE - 1;
    assert!(tx.validate().is_ok());
}
