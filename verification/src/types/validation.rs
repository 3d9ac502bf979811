//! The exchange's validation rules for every L2 transaction payload.
//!
//! Each rule set is stated as a spec function that lists the checks in the
//! order the exchange applies them; the first failing check decides the error.

use vstd::prelude::*;

use super::order_info::OrderInfo;
use super::tx_info::{
    L2BurnSharesTxInfo, L2CancelAllOrdersTxInfo, L2CancelOrderTxInfo, L2ChangePubKeyTxInfo,
    L2CreateGroupedOrdersTxInfo, L2CreateOrderTxInfo, L2CreatePublicPoolTxInfo,
    L2CreateSubAccountTxInfo, L2MintSharesTxInfo, L2ModifyOrderTxInfo, L2TransferTxInfo,
    L2UpdateLeverageTxInfo, L2UpdateMarginTxInfo, L2UpdatePublicPoolTxInfo, L2WithdrawTxInfo, TxInfo,
};
use crate::constants::{ABORT_SCHEDULED_CANCEL_ALL, ADD_TO_ISOLATED_MARGIN, ASSET_ROUTE_TYPE_PERPS, ASSET_ROUTE_TYPE_SPOT, CROSS_MARGIN, FEE_TICK, GOOD_TILL_TIME, GROUPING_TYPE_ONE_CANCELS_THE_OTHER, GROUPING_TYPE_ONE_TRIGGERS_A_ONE_CANCELS_THE_OTHER, GROUPING_TYPE_ONE_TRIGGERS_THE_OTHER, IMMEDIATE_CANCEL_ALL, IMMEDIATE_OR_CANCEL, ISOLATED_MARGIN, LIMIT_ORDER, MARGIN_FRACTION_TICK, MARKET_ORDER, MAX_ACCOUNT_INDEX, MAX_API_KEY_INDEX, MAX_ASSET_INDEX, MAX_CLIENT_ORDER_INDEX, MAX_GROUPED_ORDER_COUNT, MAX_INITIAL_TOTAL_SHARES, MAX_MASTER_ACCOUNT_INDEX, MAX_NONCE_EXCLUSIVE, MAX_ORDER_BASE_AMOUNT, MAX_ORDER_INDEX, MAX_PERPS_MARKET_INDEX, MAX_POOL_SHARES_TO_MINT_OR_BURN, MAX_SPOT_MARKET_INDEX, MAX_TIMESTAMP, MAX_TRANSFER_AMOUNT, MAX_WITHDRAWAL_AMOUNT, MIN_ACCOUNT_INDEX, MIN_ASSET_INDEX, MIN_CLIENT_ORDER_INDEX, MIN_NONCE, MIN_ORDER_BASE_AMOUNT, MIN_ORDER_EXPIRY, MIN_ORDER_PRICE, MIN_ORDER_TRIGGER_PRICE, MIN_PERPS_MARKET_INDEX, MIN_POOL_SHARES_TO_MINT_OR_BURN, MIN_SPOT_MARKET_INDEX, NIL_API_KEY_INDEX, NIL_CLIENT_ORDER_INDEX, NIL_ORDER_BASE_AMOUNT, NIL_ORDER_EXPIRY, NIL_ORDER_TRIGGER_PRICE, POST_ONLY, PUB_KEY_LENGTH, REMOVE_FROM_ISOLATED_MARGIN, SCHEDULED_CANCEL_ALL, SHARE_TICK, STOP_LOSS_LIMIT_ORDER, STOP_LOSS_ORDER, TAKE_PROFIT_LIMIT_ORDER, TAKE_PROFIT_ORDER, TWAP_ORDER, TX_TYPE_L2_BURN_SHARES, TX_TYPE_L2_CANCEL_ALL_ORDERS, TX_TYPE_L2_CANCEL_ORDER, TX_TYPE_L2_CHANGE_PUB_KEY, TX_TYPE_L2_CREATE_GROUPED_ORDERS, TX_TYPE_L2_CREATE_ORDER, TX_TYPE_L2_CREATE_PUBLIC_POOL, TX_TYPE_L2_CREATE_SUB_ACCOUNT, TX_TYPE_L2_MINT_SHARES, TX_TYPE_L2_MODIFY_ORDER, TX_TYPE_L2_TRANSFER, TX_TYPE_L2_UPDATE_LEVERAGE, TX_TYPE_L2_UPDATE_MARGIN, TX_TYPE_L2_UPDATE_PUBLIC_POOL, TX_TYPE_L2_WITHDRAW};
use crate::error::SdkError;
use crate::types::transact_opts::L2TxAttributes;

verus! {

/// `first` if it failed, otherwise `rest`: checks taken in order.
pub open spec fn then_check(first: Result<(), SdkError>, rest: Result<(), SdkError>) -> Result<
    (),
    SdkError,
> {
    match first {
        Err(e) => Err(e),
        Ok(_) => rest,
    }
}

pub open spec fn account_index_check(index: i64) -> Result<(), SdkError> {
    if index < MIN_ACCOUNT_INDEX {
        Err(SdkError::AccountIndexTooLow)
    } else if index > MAX_ACCOUNT_INDEX {
        Err(SdkError::AccountIndexTooHigh)
    } else {
        Ok(())
    }
}

pub open spec fn api_key_index_check(index: u8) -> Result<(), SdkError> {
    if index > MAX_API_KEY_INDEX {
        Err(SdkError::ApiKeyIndexTooHigh)
    } else {
        Ok(())
    }
}

/// A nonce is accepted exactly when `0 <= nonce < 2^47 - 1`.
pub open spec fn nonce_check(nonce: i64) -> Result<(), SdkError> {
    if nonce < MIN_NONCE {
        Err(SdkError::NonceTooLow)
    } else if nonce >= MAX_NONCE_EXCLUSIVE {
        Err(SdkError::NonceTooHigh)
    } else {
        Ok(())
    }
}

pub open spec fn expired_at_check(expired_at: i64) -> Result<(), SdkError> {
    if !(0 <= expired_at <= MAX_TIMESTAMP) {
        Err(SdkError::ExpiredAtInvalid)
    } else {
        Ok(())
    }
}

/// The checks that close every payload: nonce, then expiry.
pub open spec fn nonce_and_expiry_check(nonce: i64, expired_at: i64) -> Result<(), SdkError> {
    then_check(nonce_check(nonce), expired_at_check(expired_at))
}

pub open spec fn is_perps_market(market_index: i16) -> bool {
    MIN_PERPS_MARKET_INDEX <= market_index <= MAX_PERPS_MARKET_INDEX
}

pub open spec fn is_spot_market(market_index: i16) -> bool {
    MIN_SPOT_MARKET_INDEX <= market_index <= MAX_SPOT_MARKET_INDEX
}

pub open spec fn market_index_check(market_index: i16) -> Result<(), SdkError> {
    if !is_perps_market(market_index) && !is_spot_market(market_index) {
        Err(SdkError::InvalidMarketIndex)
    } else {
        Ok(())
    }
}

pub open spec fn perps_market_check(market_index: i16) -> Result<(), SdkError> {
    if !is_perps_market(market_index) {
        Err(SdkError::InvalidMarketIndex)
    } else {
        Ok(())
    }
}

fn validate_account_index(index: i64) -> (res: Result<(), SdkError>)
    ensures
        res == account_index_check(index),
{
    if index < MIN_ACCOUNT_INDEX {
        return Err(SdkError::AccountIndexTooLow);
    }
    if index > MAX_ACCOUNT_INDEX {
        return Err(SdkError::AccountIndexTooHigh);
    }
    Ok(())
}

fn validate_api_key_index(index: u8) -> (res: Result<(), SdkError>)
    ensures
        res == api_key_index_check(index),
{
    if index > MAX_API_KEY_INDEX {
        return Err(SdkError::ApiKeyIndexTooHigh);
    }
    Ok(())
}

fn validate_nonce(nonce: i64) -> (res: Result<(), SdkError>)
    ensures
        res == nonce_check(nonce),
{
    if nonce < MIN_NONCE {
        return Err(SdkError::NonceTooLow);
    }
    if nonce >= MAX_NONCE_EXCLUSIVE {
        return Err(SdkError::NonceTooHigh);
    }
    Ok(())
}

fn validate_expired_at(expired_at: i64) -> (res: Result<(), SdkError>)
    ensures
        res == expired_at_check(expired_at),
{
    if !(0 <= expired_at && expired_at <= MAX_TIMESTAMP) {
        return Err(SdkError::ExpiredAtInvalid);
    }
    Ok(())
}

fn is_valid_market_index(market_index: i16) -> (res: (bool, bool))
    ensures
        res == (is_perps_market(market_index), is_spot_market(market_index)),
{
    let is_perps = MIN_PERPS_MARKET_INDEX <= market_index && market_index <= MAX_PERPS_MARKET_INDEX;
    let is_spot = MIN_SPOT_MARKET_INDEX <= market_index && market_index <= MAX_SPOT_MARKET_INDEX;
    (is_perps, is_spot)
}

fn validate_market_index(market_index: i16) -> (res: Result<(bool, bool), SdkError>)
    ensures
        match res {
            Ok(kinds) => market_index_check(market_index) is Ok && kinds == (
                is_perps_market(market_index),
                is_spot_market(market_index),
            ),
            Err(e) => market_index_check(market_index) == Err::<(), SdkError>(e),
        },
{
    let (is_perps, is_spot) = is_valid_market_index(market_index);
    if !is_perps && !is_spot {
        return Err(SdkError::InvalidMarketIndex);
    }
    Ok((is_perps, is_spot))
}

// ---------------------------------------------------------------------------
// Orders
// ---------------------------------------------------------------------------

pub open spec fn is_ask_valid(v: u8) -> bool {
    v == 0 || v == 1
}

pub open spec fn is_order_time_in_force(v: u8) -> bool {
    v == IMMEDIATE_OR_CANCEL || v == GOOD_TILL_TIME || v == POST_ONLY
}

/// Rules that depend on the order type of a single order.
pub open spec fn order_type_check(o: OrderInfo, is_perps: bool) -> Result<(), SdkError> {
    if o.order_type == MARKET_ORDER {
        if o.time_in_force != IMMEDIATE_OR_CANCEL {
            Err(SdkError::OrderTimeInForceInvalid)
        } else if o.order_expiry != NIL_ORDER_EXPIRY {
            Err(SdkError::OrderExpiryInvalid)
        } else if o.trigger_price != NIL_ORDER_TRIGGER_PRICE {
            Err(SdkError::OrderTriggerPriceInvalid)
        } else {
            Ok(())
        }
    } else if o.order_type == LIMIT_ORDER {
        if o.trigger_price != NIL_ORDER_TRIGGER_PRICE {
            Err(SdkError::OrderTriggerPriceInvalid)
        } else if o.time_in_force == IMMEDIATE_OR_CANCEL && o.order_expiry != NIL_ORDER_EXPIRY {
            Err(SdkError::OrderExpiryInvalid)
        } else if o.time_in_force != IMMEDIATE_OR_CANCEL && o.order_expiry == NIL_ORDER_EXPIRY {
            Err(SdkError::OrderExpiryInvalid)
        } else {
            Ok(())
        }
    } else if o.order_type == STOP_LOSS_ORDER || o.order_type == TAKE_PROFIT_ORDER {
        if !is_perps {
            Err(SdkError::OrderTypeInvalid)
        } else if o.time_in_force != IMMEDIATE_OR_CANCEL {
            Err(SdkError::OrderTimeInForceInvalid)
        } else if o.trigger_price == NIL_ORDER_TRIGGER_PRICE {
            Err(SdkError::OrderTriggerPriceInvalid)
        } else if o.order_expiry == NIL_ORDER_EXPIRY {
            Err(SdkError::OrderExpiryInvalid)
        } else {
            Ok(())
        }
    } else if o.order_type == STOP_LOSS_LIMIT_ORDER || o.order_type == TAKE_PROFIT_LIMIT_ORDER {
        if !is_perps {
            Err(SdkError::OrderTypeInvalid)
        } else if o.trigger_price == NIL_ORDER_TRIGGER_PRICE {
            Err(SdkError::OrderTriggerPriceInvalid)
        } else if o.order_expiry == NIL_ORDER_EXPIRY {
            Err(SdkError::OrderExpiryInvalid)
        } else {
            Ok(())
        }
    } else if o.order_type == TWAP_ORDER {
        if o.time_in_force != GOOD_TILL_TIME {
            Err(SdkError::OrderTimeInForceInvalid)
        } else if o.trigger_price != NIL_ORDER_TRIGGER_PRICE {
            Err(SdkError::OrderTriggerPriceInvalid)
        } else if o.order_expiry == NIL_ORDER_EXPIRY {
            Err(SdkError::OrderExpiryInvalid)
        } else {
            Ok(())
        }
    } else {
        Err(SdkError::OrderTypeInvalid)
    }
}

/// The rules for the order of a create-order transaction, in order:
/// client order index, base amount, price, side, time in force, reduce-only,
/// expiry, the type-specific rules and the trigger price.
pub open spec fn single_order_check(o: OrderInfo, is_perps: bool, is_spot: bool) -> Result<
    (),
    SdkError,
> {
    if o.client_order_index != NIL_CLIENT_ORDER_INDEX && o.client_order_index
        < MIN_CLIENT_ORDER_INDEX {
        Err(SdkError::ClientOrderIndexTooLow)
    } else if o.client_order_index != NIL_CLIENT_ORDER_INDEX && o.client_order_index
        > MAX_CLIENT_ORDER_INDEX {
        Err(SdkError::ClientOrderIndexTooHigh)
    } else if o.reduce_only != 1 && o.base_amount == NIL_ORDER_BASE_AMOUNT {
        Err(SdkError::BaseAmountTooLow)
    } else if o.base_amount != NIL_ORDER_BASE_AMOUNT && o.base_amount < MIN_ORDER_BASE_AMOUNT {
        Err(SdkError::BaseAmountTooLow)
    } else if o.base_amount > MAX_ORDER_BASE_AMOUNT {
        Err(SdkError::BaseAmountTooHigh)
    } else if o.price < MIN_ORDER_PRICE {
        Err(SdkError::PriceTooLow)
    } else if !is_ask_valid(o.is_ask) {
        Err(SdkError::IsAskInvalid)
    } else if !is_order_time_in_force(o.time_in_force) {
        Err(SdkError::OrderTimeInForceInvalid)
    } else if (o.reduce_only != 0 && o.reduce_only != 1) || (is_spot && o.reduce_only == 1) {
        Err(SdkError::OrderReduceOnlyInvalid)
    } else if o.order_expiry != NIL_ORDER_EXPIRY && o.order_expiry < MIN_ORDER_EXPIRY {
        Err(SdkError::OrderExpiryInvalid)
    } else {
        then_check(
            order_type_check(o, is_perps),
            if o.trigger_price != NIL_ORDER_TRIGGER_PRICE && o.trigger_price
                < MIN_ORDER_TRIGGER_PRICE {
                Err(SdkError::OrderTriggerPriceInvalid)
            } else {
                Ok(())
            },
        )
    }
}

fn check_order_type(o: &OrderInfo, is_perps: bool) -> (res: Result<(), SdkError>)
    ensures
        res == order_type_check(*o, is_perps),
{
    if o.order_type == MARKET_ORDER {
        if o.time_in_force != IMMEDIATE_OR_CANCEL {
            return Err(SdkError::OrderTimeInForceInvalid);
        }
        if o.order_expiry != NIL_ORDER_EXPIRY {
            return Err(SdkError::OrderExpiryInvalid);
        }
        if o.trigger_price != NIL_ORDER_TRIGGER_PRICE {
            return Err(SdkError::OrderTriggerPriceInvalid);
        }
    } else if o.order_type == LIMIT_ORDER {
        if o.trigger_price != NIL_ORDER_TRIGGER_PRICE {
            return Err(SdkError::OrderTriggerPriceInvalid);
        }
        if o.time_in_force == IMMEDIATE_OR_CANCEL && o.order_expiry != NIL_ORDER_EXPIRY {
            return Err(SdkError::OrderExpiryInvalid);
        }
        if o.time_in_force != IMMEDIATE_OR_CANCEL && o.order_expiry == NIL_ORDER_EXPIRY {
            return Err(SdkError::OrderExpiryInvalid);
        }
    } else if o.order_type == STOP_LOSS_ORDER || o.order_type == TAKE_PROFIT_ORDER {
        if !is_perps {
            return Err(SdkError::OrderTypeInvalid);
        }
        if o.time_in_force != IMMEDIATE_OR_CANCEL {
            return Err(SdkError::OrderTimeInForceInvalid);
        }
        if o.trigger_price == NIL_ORDER_TRIGGER_PRICE {
            return Err(SdkError::OrderTriggerPriceInvalid);
        }
        if o.order_expiry == NIL_ORDER_EXPIRY {
            return Err(SdkError::OrderExpiryInvalid);
        }
    } else if o.order_type == STOP_LOSS_LIMIT_ORDER || o.order_type == TAKE_PROFIT_LIMIT_ORDER {
        if !is_perps {
            return Err(SdkError::OrderTypeInvalid);
        }
        if o.trigger_price == NIL_ORDER_TRIGGER_PRICE {
            return Err(SdkError::OrderTriggerPriceInvalid);
        }
        if o.order_expiry == NIL_ORDER_EXPIRY {
            return Err(SdkError::OrderExpiryInvalid);
        }
    } else if o.order_type == TWAP_ORDER {
        if o.time_in_force != GOOD_TILL_TIME {
            return Err(SdkError::OrderTimeInForceInvalid);
        }
        if o.trigger_price != NIL_ORDER_TRIGGER_PRICE {
            return Err(SdkError::OrderTriggerPriceInvalid);
        }
        if o.order_expiry == NIL_ORDER_EXPIRY {
            return Err(SdkError::OrderExpiryInvalid);
        }
    } else {
        return Err(SdkError::OrderTypeInvalid);
    }
    Ok(())
}

fn check_single_order(o: &OrderInfo, is_perps: bool, is_spot: bool) -> (res: Result<(), SdkError>)
    ensures
        res == single_order_check(*o, is_perps, is_spot),
{
    if o.client_order_index != NIL_CLIENT_ORDER_INDEX {
        if o.client_order_index < MIN_CLIENT_ORDER_INDEX {
            return Err(SdkError::ClientOrderIndexTooLow);
        }
        if o.client_order_index > MAX_CLIENT_ORDER_INDEX {
            return Err(SdkError::ClientOrderIndexTooHigh);
        }
    }
    if o.reduce_only != 1 && o.base_amount == NIL_ORDER_BASE_AMOUNT {
        return Err(SdkError::BaseAmountTooLow);
    }
    if o.base_amount != NIL_ORDER_BASE_AMOUNT && o.base_amount < MIN_ORDER_BASE_AMOUNT {
        return Err(SdkError::BaseAmountTooLow);
    }
    if o.base_amount > MAX_ORDER_BASE_AMOUNT {
        return Err(SdkError::BaseAmountTooHigh);
    }
    if o.price < MIN_ORDER_PRICE {
        return Err(SdkError::PriceTooLow);
    }
    if o.is_ask != 0 && o.is_ask != 1 {
        return Err(SdkError::IsAskInvalid);
    }
    if o.time_in_force != IMMEDIATE_OR_CANCEL && o.time_in_force != GOOD_TILL_TIME
        && o.time_in_force != POST_ONLY {
        return Err(SdkError::OrderTimeInForceInvalid);
    }
    if (o.reduce_only != 0 && o.reduce_only != 1) || (is_spot && o.reduce_only == 1) {
        return Err(SdkError::OrderReduceOnlyInvalid);
    }
    if o.order_expiry != NIL_ORDER_EXPIRY && o.order_expiry < MIN_ORDER_EXPIRY {
        return Err(SdkError::OrderExpiryInvalid);
    }
    check_order_type(o, is_perps)?;
    if o.trigger_price != NIL_ORDER_TRIGGER_PRICE && o.trigger_price < MIN_ORDER_TRIGGER_PRICE {
        return Err(SdkError::OrderTriggerPriceInvalid);
    }
    Ok(())
}

// ---------------------------------------------------------------------------
// Per-transaction rule sets
// ---------------------------------------------------------------------------

pub open spec fn change_pub_key_check(tx: L2ChangePubKeyTxInfo) -> Result<(), SdkError> {
    then_check(
        tx.l2_tx_attributes.check(),
        then_check(
            account_index_check(tx.account_index),
            then_check(
                api_key_index_check(tx.api_key_index),
                then_check(
                    nonce_and_expiry_check(tx.nonce, tx.expired_at),
                    if tx.pub_key@.len() != PUB_KEY_LENGTH {
                        Err(SdkError::PubKeyInvalid)
                    } else {
                        Ok(())
                    },
                ),
            ),
        ),
    )
}

pub open spec fn create_sub_account_check(tx: L2CreateSubAccountTxInfo) -> Result<(), SdkError> {
    then_check(
        tx.l2_tx_attributes.check(),
        then_check(
            if tx.account_index < MIN_ACCOUNT_INDEX {
                Err(SdkError::AccountIndexTooLow)
            } else if tx.account_index > MAX_MASTER_ACCOUNT_INDEX {
                Err(SdkError::AccountIndexTooHigh)
            } else {
                Ok(())
            },
            then_check(
                api_key_index_check(tx.api_key_index),
                nonce_and_expiry_check(tx.nonce, tx.expired_at),
            ),
        ),
    )
}

pub open spec fn create_order_check(tx: L2CreateOrderTxInfo) -> Result<(), SdkError> {
    let m = tx.order_info.market_index;
    then_check(
        tx.l2_tx_attributes.check(),
        then_check(
            account_index_check(tx.account_index),
            then_check(
                api_key_index_check(tx.api_key_index),
                then_check(
                    market_index_check(m),
                    then_check(
                        single_order_check(tx.order_info, is_perps_market(m), is_spot_market(m)),
                        nonce_and_expiry_check(tx.nonce, tx.expired_at),
                    ),
                ),
            ),
        ),
    )
}

impl TxInfo for L2ChangePubKeyTxInfo {
    fn tx_type(&self) -> (t: u8)
        ensures
            t == TX_TYPE_L2_CHANGE_PUB_KEY,
    {
        TX_TYPE_L2_CHANGE_PUB_KEY
    }

    fn tx_hash(&self) -> (h: &str)
        ensures
            h@ == self.signed_hash@,
    {
        self.signed_hash.as_str()
    }

    fn validate(&self) -> (res: Result<(), SdkError>)
        ensures
            res == change_pub_key_check(*self),
    {
        self.l2_tx_attributes.validate()?;
        validate_account_index(self.account_index)?;
        validate_api_key_index(self.api_key_index)?;
        validate_nonce(self.nonce)?;
        validate_expired_at(self.expired_at)?;
        if self.pub_key.len() != PUB_KEY_LENGTH {
            return Err(SdkError::PubKeyInvalid);
        }
        Ok(())
    }
}

impl TxInfo for L2CreateSubAccountTxInfo {
    fn tx_type(&self) -> (t: u8)
        ensures
            t == TX_TYPE_L2_CREATE_SUB_ACCOUNT,
    {
        TX_TYPE_L2_CREATE_SUB_ACCOUNT
    }

    fn tx_hash(&self) -> (h: &str)
        ensures
            h@ == self.signed_hash@,
    {
        self.signed_hash.as_str()
    }

    fn validate(&self) -> (res: Result<(), SdkError>)
        ensures
            res == create_sub_account_check(*self),
    {
        self.l2_tx_attributes.validate()?;
        if self.account_index < MIN_ACCOUNT_INDEX {
            return Err(SdkError::AccountIndexTooLow);
        }
        if self.account_index > MAX_MASTER_ACCOUNT_INDEX {
            return Err(SdkError::AccountIndexTooHigh);
        }
        validate_api_key_index(self.api_key_index)?;
        validate_nonce(self.nonce)?;
        validate_expired_at(self.expired_at)?;
        Ok(())
    }
}

impl TxInfo for L2CreateOrderTxInfo {
    fn tx_type(&self) -> (t: u8)
        ensures
            t == TX_TYPE_L2_CREATE_ORDER,
    {
        TX_TYPE_L2_CREATE_ORDER
    }

    fn tx_hash(&self) -> (h: &str)
        ensures
            h@ == self.signed_hash@,
    {
        self.signed_hash.as_str()
    }

    fn validate(&self) -> (res: Result<(), SdkError>)
        ensures
            res == create_order_check(*self),
    {
        self.l2_tx_attributes.validate()?;
        validate_account_index(self.account_index)?;
        validate_api_key_index(self.api_key_index)?;
        let (is_perps, is_spot) = validate_market_index(self.order_info.market_index)?;
        check_single_order(&self.order_info, is_perps, is_spot)?;
        validate_nonce(self.nonce)?;
        validate_expired_at(self.expired_at)?;
        Ok(())
    }
}


// ---------------------------------------------------------------------------
// Grouped orders
// ---------------------------------------------------------------------------

/// The rules applied to each order of a grouped-orders transaction.
pub open spec fn grouped_order_check(o: OrderInfo, market_index: i16) -> Result<(), SdkError> {
    if o.market_index != market_index {
        Err(SdkError::MarketIndexMismatch)
    } else if o.client_order_index != NIL_CLIENT_ORDER_INDEX {
        Err(SdkError::ClientOrderIndexNotNil)
    } else if o.reduce_only != 1 && o.base_amount == NIL_ORDER_BASE_AMOUNT {
        Err(SdkError::BaseAmountTooLow)
    } else if o.base_amount != NIL_ORDER_BASE_AMOUNT && o.base_amount < MIN_ORDER_BASE_AMOUNT {
        Err(SdkError::BaseAmountTooLow)
    } else if o.base_amount > MAX_ORDER_BASE_AMOUNT {
        Err(SdkError::BaseAmountTooHigh)
    } else if o.price < MIN_ORDER_PRICE {
        Err(SdkError::PriceTooLow)
    } else if !is_ask_valid(o.is_ask) {
        Err(SdkError::IsAskInvalid)
    } else if !is_order_time_in_force(o.time_in_force) {
        Err(SdkError::OrderTimeInForceInvalid)
    } else if o.reduce_only != 0 && o.reduce_only != 1 {
        Err(SdkError::OrderReduceOnlyInvalid)
    } else if o.order_expiry != NIL_ORDER_EXPIRY && o.order_expiry < MIN_ORDER_EXPIRY {
        Err(SdkError::OrderExpiryInvalid)
    } else if o.trigger_price != NIL_ORDER_TRIGGER_PRICE && o.trigger_price
        < MIN_ORDER_TRIGGER_PRICE {
        Err(SdkError::OrderTriggerPriceInvalid)
    } else {
        Ok(())
    }
}

/// [`grouped_order_check`] applied to each order in turn; the first failure wins.
pub open spec fn grouped_orders_check(orders: Seq<OrderInfo>, market_index: i16) -> Result<
    (),
    SdkError,
>
    decreases orders.len(),
{
    if orders.len() == 0 {
        Ok(())
    } else {
        then_check(
            grouped_orders_check(orders.drop_last(), market_index),
            grouped_order_check(orders.last(), market_index),
        )
    }
}

/// Once a prefix of the orders fails, the whole sequence fails the same way.
proof fn lemma_grouped_prefix_failure(orders: Seq<OrderInfo>, k: int, market_index: i16)
    requires
        0 <= k <= orders.len(),
        grouped_orders_check(orders.take(k), market_index) is Err,
    ensures
        grouped_orders_check(orders, market_index) == grouped_orders_check(
            orders.take(k),
            market_index,
        ),
    decreases orders.len() - k,
{
    if k == orders.len() {
        assert(orders.take(k) =~= orders);
    } else {
        assert(orders.take(k + 1).drop_last() =~= orders.take(k));
        lemma_grouped_prefix_failure(orders, k + 1, market_index);
    }
}

/// Rules for the parent order of a triggering group.
pub open spec fn parent_order_check(o: OrderInfo) -> Result<(), SdkError> {
    if o.order_type == MARKET_ORDER {
        if o.time_in_force != IMMEDIATE_OR_CANCEL {
            Err(SdkError::OrderTimeInForceInvalid)
        } else if o.order_expiry != NIL_ORDER_EXPIRY {
            Err(SdkError::OrderExpiryInvalid)
        } else if o.trigger_price != NIL_ORDER_TRIGGER_PRICE {
            Err(SdkError::OrderTriggerPriceInvalid)
        } else {
            Ok(())
        }
    } else if o.order_type == LIMIT_ORDER {
        if o.trigger_price != NIL_ORDER_TRIGGER_PRICE {
            Err(SdkError::OrderTriggerPriceInvalid)
        } else if o.time_in_force == IMMEDIATE_OR_CANCEL && o.order_expiry != NIL_ORDER_EXPIRY {
            Err(SdkError::OrderExpiryInvalid)
        } else if o.time_in_force != IMMEDIATE_OR_CANCEL && o.order_expiry == NIL_ORDER_EXPIRY {
            Err(SdkError::OrderExpiryInvalid)
        } else {
            Ok(())
        }
    } else {
        Err(SdkError::OrderTypeInvalid)
    }
}

/// Rules for a triggered (stop-loss or take-profit) child order.
pub open spec fn child_order_check(o: OrderInfo) -> Result<(), SdkError> {
    if o.order_type == STOP_LOSS_ORDER || o.order_type == TAKE_PROFIT_ORDER {
        if o.time_in_force != IMMEDIATE_OR_CANCEL {
            Err(SdkError::OrderTimeInForceInvalid)
        } else if o.trigger_price == NIL_ORDER_TRIGGER_PRICE {
            Err(SdkError::OrderTriggerPriceInvalid)
        } else if o.order_expiry == NIL_ORDER_EXPIRY {
            Err(SdkError::OrderExpiryInvalid)
        } else {
            Ok(())
        }
    } else if o.order_type == STOP_LOSS_LIMIT_ORDER || o.order_type == TAKE_PROFIT_LIMIT_ORDER {
        if o.trigger_price == NIL_ORDER_TRIGGER_PRICE {
            Err(SdkError::OrderTriggerPriceInvalid)
        } else if o.order_expiry == NIL_ORDER_EXPIRY {
            Err(SdkError::OrderExpiryInvalid)
        } else {
            Ok(())
        }
    } else {
        Err(SdkError::OrderTypeInvalid)
    }
}

pub open spec fn is_stop_loss_kind(o: OrderInfo) -> bool {
    o.order_type == STOP_LOSS_ORDER || o.order_type == STOP_LOSS_LIMIT_ORDER
}

pub open spec fn is_take_profit_kind(o: OrderInfo) -> bool {
    o.order_type == TAKE_PROFIT_ORDER || o.order_type == TAKE_PROFIT_LIMIT_ORDER
}

/// Two valid child orders, one stop-loss and one take-profit.
pub open spec fn sibling_orders_check(orders: Seq<OrderInfo>) -> Result<(), SdkError> {
    if orders.len() != 2 {
        Err(SdkError::OrderGroupSizeInvalid)
    } else {
        then_check(
            child_order_check(orders[0]),
            then_check(
                child_order_check(orders[1]),
                if (is_stop_loss_kind(orders[0]) || is_stop_loss_kind(orders[1])) && (
                is_take_profit_kind(orders[0]) || is_take_profit_kind(orders[1])) {
                    Ok(())
                } else {
                    Err(SdkError::OrderTypeInvalid)
                },
            ),
        )
    }
}

/// One-cancels-the-other: two reduce-only children of equal size, side and expiry.
pub open spec fn oco_check(orders: Seq<OrderInfo>) -> Result<(), SdkError> {
    if orders.len() != 2 {
        Err(SdkError::OrderGroupSizeInvalid)
    } else if orders[0].base_amount != orders[1].base_amount {
        Err(SdkError::BaseAmountsNotEqual)
    } else if orders[0].is_ask != orders[1].is_ask {
        Err(SdkError::IsAskInvalid)
    } else if orders[0].reduce_only != 1 || orders[1].reduce_only != 1 {
        Err(SdkError::OrderReduceOnlyInvalid)
    } else if orders[0].order_expiry != orders[1].order_expiry {
        Err(SdkError::OrderExpiryInvalid)
    } else {
        sibling_orders_check(orders)
    }
}

/// One-triggers-the-other: a parent and an opposite-side child without size.
pub open spec fn oto_check(orders: Seq<OrderInfo>) -> Result<(), SdkError> {
    if orders.len() != 2 {
        Err(SdkError::OrderGroupSizeInvalid)
    } else if orders[1].base_amount != NIL_ORDER_BASE_AMOUNT {
        Err(SdkError::BaseAmountNotNil)
    } else if orders[0].is_ask == orders[1].is_ask {
        Err(SdkError::IsAskInvalid)
    } else if orders[0].order_expiry != NIL_ORDER_EXPIRY && orders[0].order_expiry
        != orders[1].order_expiry {
        Err(SdkError::OrderExpiryInvalid)
    } else {
        then_check(parent_order_check(orders[0]), child_order_check(orders[1]))
    }
}

/// One-triggers-a-one-cancels-the-other: a parent and two opposite-side siblings.
pub open spec fn otoco_check(orders: Seq<OrderInfo>) -> Result<(), SdkError> {
    if orders.len() != 3 {
        Err(SdkError::OrderGroupSizeInvalid)
    } else if orders[1].base_amount != NIL_ORDER_BASE_AMOUNT || orders[2].base_amount
        != NIL_ORDER_BASE_AMOUNT {
        Err(SdkError::BaseAmountNotNil)
    } else if orders[0].is_ask == orders[1].is_ask || orders[0].is_ask == orders[2].is_ask {
        Err(SdkError::IsAskInvalid)
    } else if orders[1].order_expiry != orders[2].order_expiry {
        Err(SdkError::OrderExpiryInvalid)
    } else if orders[0].order_expiry != NIL_ORDER_EXPIRY && orders[0].order_expiry
        != orders[1].order_expiry {
        Err(SdkError::OrderExpiryInvalid)
    } else {
        then_check(parent_order_check(orders[0]), sibling_orders_check(orders.subrange(1, 3)))
    }
}

pub open spec fn grouping_check(grouping_type: u8, orders: Seq<OrderInfo>) -> Result<
    (),
    SdkError,
> {
    if grouping_type == GROUPING_TYPE_ONE_CANCELS_THE_OTHER {
        oco_check(orders)
    } else if grouping_type == GROUPING_TYPE_ONE_TRIGGERS_THE_OTHER {
        oto_check(orders)
    } else if grouping_type == GROUPING_TYPE_ONE_TRIGGERS_A_ONE_CANCELS_THE_OTHER {
        otoco_check(orders)
    } else {
        Err(SdkError::GroupingTypeInvalid)
    }
}

pub open spec fn create_grouped_orders_check(tx: L2CreateGroupedOrdersTxInfo) -> Result<
    (),
    SdkError,
> {
    let orders = tx.orders@;
    then_check(
        tx.l2_tx_attributes.check(),
        then_check(
            account_index_check(tx.account_index),
            then_check(
                api_key_index_check(tx.api_key_index),
                if orders.len() == 0 || orders.len() > MAX_GROUPED_ORDER_COUNT {
                    Err(SdkError::OrderGroupSizeInvalid)
                } else if !is_perps_market(orders[0].market_index) {
                    Err(SdkError::InvalidMarketIndex)
                } else {
                    then_check(
                        grouped_orders_check(orders, orders[0].market_index),
                        then_check(
                            nonce_and_expiry_check(tx.nonce, tx.expired_at),
                            grouping_check(tx.grouping_type, orders),
                        ),
                    )
                },
            ),
        ),
    )
}

fn check_grouped_order(o: &OrderInfo, market_index: i16) -> (res: Result<(), SdkError>)
    ensures
        res == grouped_order_check(*o, market_index),
{
    if o.market_index != market_index {
        return Err(SdkError::MarketIndexMismatch);
    }
    if o.client_order_index != NIL_CLIENT_ORDER_INDEX {
        return Err(SdkError::ClientOrderIndexNotNil);
    }
    if o.reduce_only != 1 && o.base_amount == NIL_ORDER_BASE_AMOUNT {
        return Err(SdkError::BaseAmountTooLow);
    }
    if o.base_amount != NIL_ORDER_BASE_AMOUNT && o.base_amount < MIN_ORDER_BASE_AMOUNT {
        return Err(SdkError::BaseAmountTooLow);
    }
    if o.base_amount > MAX_ORDER_BASE_AMOUNT {
        return Err(SdkError::BaseAmountTooHigh);
    }
    if o.price < MIN_ORDER_PRICE {
        return Err(SdkError::PriceTooLow);
    }
    if o.is_ask != 0 && o.is_ask != 1 {
        return Err(SdkError::IsAskInvalid);
    }
    if o.time_in_force != IMMEDIATE_OR_CANCEL && o.time_in_force != GOOD_TILL_TIME
        && o.time_in_force != POST_ONLY {
        return Err(SdkError::OrderTimeInForceInvalid);
    }
    if o.reduce_only != 0 && o.reduce_only != 1 {
        return Err(SdkError::OrderReduceOnlyInvalid);
    }
    if o.order_expiry != NIL_ORDER_EXPIRY && o.order_expiry < MIN_ORDER_EXPIRY {
        return Err(SdkError::OrderExpiryInvalid);
    }
    if o.trigger_price != NIL_ORDER_TRIGGER_PRICE && o.trigger_price < MIN_ORDER_TRIGGER_PRICE {
        return Err(SdkError::OrderTriggerPriceInvalid);
    }
    Ok(())
}

impl L2CreateGroupedOrdersTxInfo {
    fn validate_parent_order(&self, order: &OrderInfo) -> (res: Result<(), SdkError>)
        ensures
            res == parent_order_check(*order),
    {
        if order.order_type == MARKET_ORDER {
            if order.time_in_force != IMMEDIATE_OR_CANCEL {
                return Err(SdkError::OrderTimeInForceInvalid);
            }
            if order.order_expiry != NIL_ORDER_EXPIRY {
                return Err(SdkError::OrderExpiryInvalid);
            }
            if order.trigger_price != NIL_ORDER_TRIGGER_PRICE {
                return Err(SdkError::OrderTriggerPriceInvalid);
            }
        } else if order.order_type == LIMIT_ORDER {
            if order.trigger_price != NIL_ORDER_TRIGGER_PRICE {
                return Err(SdkError::OrderTriggerPriceInvalid);
            }
            if order.time_in_force == IMMEDIATE_OR_CANCEL && order.order_expiry
                != NIL_ORDER_EXPIRY {
                return Err(SdkError::OrderExpiryInvalid);
            }
            if order.time_in_force != IMMEDIATE_OR_CANCEL && order.order_expiry
                == NIL_ORDER_EXPIRY {
                return Err(SdkError::OrderExpiryInvalid);
            }
        } else {
            return Err(SdkError::OrderTypeInvalid);
        }
        Ok(())
    }

    fn validate_child_order(&self, order: &OrderInfo) -> (res: Result<(), SdkError>)
        ensures
            res == child_order_check(*order),
    {
        if order.order_type == STOP_LOSS_ORDER || order.order_type == TAKE_PROFIT_ORDER {
            if order.time_in_force != IMMEDIATE_OR_CANCEL {
                return Err(SdkError::OrderTimeInForceInvalid);
            }
            if order.trigger_price == NIL_ORDER_TRIGGER_PRICE {
                return Err(SdkError::OrderTriggerPriceInvalid);
            }
            if order.order_expiry == NIL_ORDER_EXPIRY {
                return Err(SdkError::OrderExpiryInvalid);
            }
        } else if order.order_type == STOP_LOSS_LIMIT_ORDER || order.order_type
            == TAKE_PROFIT_LIMIT_ORDER {
            if order.trigger_price == NIL_ORDER_TRIGGER_PRICE {
                return Err(SdkError::OrderTriggerPriceInvalid);
            }
            if order.order_expiry == NIL_ORDER_EXPIRY {
                return Err(SdkError::OrderExpiryInvalid);
            }
        } else {
            return Err(SdkError::OrderTypeInvalid);
        }
        Ok(())
    }

    fn validate_sibling_orders(&self, orders: &[OrderInfo]) -> (res: Result<(), SdkError>)
        ensures
            res == sibling_orders_check(orders@),
    {
        if orders.len() != 2 {
            return Err(SdkError::OrderGroupSizeInvalid);
        }
        let mut sl_flag = false;
        let mut tp_flag = false;
        let mut i: usize = 0;
        while i < 2
            invariant
                orders@.len() == 2,
                i <= 2,
                i >= 1 ==> child_order_check(orders@[0]) is Ok,
                i >= 2 ==> child_order_check(orders@[1]) is Ok,
                sl_flag == exists|j: int| 0 <= j < i && is_stop_loss_kind(#[trigger] orders@[j]),
                tp_flag == exists|j: int|
                    0 <= j < i && !is_stop_loss_kind(#[trigger] orders@[j]) && is_take_profit_kind(
                        orders@[j],
                    ),
            decreases 2 - i,
        {
            let order = &orders[i];
            self.validate_child_order(order)?;
            if order.order_type == STOP_LOSS_ORDER || order.order_type == STOP_LOSS_LIMIT_ORDER {
                sl_flag = true;
            } else if order.order_type == TAKE_PROFIT_ORDER || order.order_type
                == TAKE_PROFIT_LIMIT_ORDER {
                tp_flag = true;
            }
            i = i + 1;
        }
        proof {
            assert(sl_flag == (is_stop_loss_kind(orders@[0]) || is_stop_loss_kind(orders@[1])));
        }
        if !sl_flag || !tp_flag {
            return Err(SdkError::OrderTypeInvalid);
        }
        Ok(())
    }

    fn validate_oco(&self) -> (res: Result<(), SdkError>)
        ensures
            res == oco_check(self.orders@),
    {
        if self.orders.len() != 2 {
            return Err(SdkError::OrderGroupSizeInvalid);
        }
        if self.orders[0].base_amount != self.orders[1].base_amount {
            return Err(SdkError::BaseAmountsNotEqual);
        }
        if self.orders[0].is_ask != self.orders[1].is_ask {
            return Err(SdkError::IsAskInvalid);
        }
        if self.orders[0].reduce_only != 1 || self.orders[1].reduce_only != 1 {
            return Err(SdkError::OrderReduceOnlyInvalid);
        }
        if self.orders[0].order_expiry != self.orders[1].order_expiry {
            return Err(SdkError::OrderExpiryInvalid);
        }
        self.validate_sibling_orders(self.orders.as_slice())
    }

    fn validate_oto(&self) -> (res: Result<(), SdkError>)
        ensures
            res == oto_check(self.orders@),
    {
        if self.orders.len() != 2 {
            return Err(SdkError::OrderGroupSizeInvalid);
        }
        if self.orders[1].base_amount != NIL_ORDER_BASE_AMOUNT {
            return Err(SdkError::BaseAmountNotNil);
        }
        if self.orders[0].is_ask == self.orders[1].is_ask {
            return Err(SdkError::IsAskInvalid);
        }
        if self.orders[0].order_expiry != NIL_ORDER_EXPIRY && self.orders[0].order_expiry
            != self.orders[1].order_expiry {
            return Err(SdkError::OrderExpiryInvalid);
        }
        self.validate_parent_order(&self.orders[0])?;
        self.validate_child_order(&self.orders[1])
    }

    fn validate_otoco(&self) -> (res: Result<(), SdkError>)
        ensures
            res == otoco_check(self.orders@),
    {
        if self.orders.len() != 3 {
            return Err(SdkError::OrderGroupSizeInvalid);
        }
        if self.orders[1].base_amount != NIL_ORDER_BASE_AMOUNT || self.orders[2].base_amount
            != NIL_ORDER_BASE_AMOUNT {
            return Err(SdkError::BaseAmountNotNil);
        }
        if self.orders[0].is_ask == self.orders[1].is_ask || self.orders[0].is_ask
            == self.orders[2].is_ask {
            return Err(SdkError::IsAskInvalid);
        }
        if self.orders[1].order_expiry != self.orders[2].order_expiry {
            return Err(SdkError::OrderExpiryInvalid);
        }
        if self.orders[0].order_expiry != NIL_ORDER_EXPIRY && self.orders[0].order_expiry
            != self.orders[1].order_expiry {
            return Err(SdkError::OrderExpiryInvalid);
        }
        self.validate_parent_order(&self.orders[0])?;
        let (_, siblings) = self.orders.as_slice().split_at(1);
        proof {
            assert(siblings@ =~= self.orders@.subrange(1, 3));
        }
        self.validate_sibling_orders(siblings)
    }
}

impl TxInfo for L2CreateGroupedOrdersTxInfo {
    fn tx_type(&self) -> (t: u8)
        ensures
            t == TX_TYPE_L2_CREATE_GROUPED_ORDERS,
    {
        TX_TYPE_L2_CREATE_GROUPED_ORDERS
    }

    fn tx_hash(&self) -> (h: &str)
        ensures
            h@ == self.signed_hash@,
    {
        self.signed_hash.as_str()
    }

    fn validate(&self) -> (res: Result<(), SdkError>)
        ensures
            res == create_grouped_orders_check(*self),
    {
        self.l2_tx_attributes.validate()?;
        validate_account_index(self.account_index)?;
        validate_api_key_index(self.api_key_index)?;
        if self.orders.len() == 0 || self.orders.len() > MAX_GROUPED_ORDER_COUNT as usize {
            return Err(SdkError::OrderGroupSizeInvalid);
        }
        if !(MIN_PERPS_MARKET_INDEX <= self.orders[0].market_index && self.orders[0].market_index
            <= MAX_PERPS_MARKET_INDEX) {
            return Err(SdkError::InvalidMarketIndex);
        }
        let market_index = self.orders[0].market_index;
        let mut i: usize = 0;
        while i < self.orders.len()
            invariant
                i <= self.orders@.len(),
                self.l2_tx_attributes.check() is Ok,
                account_index_check(self.account_index) is Ok,
                api_key_index_check(self.api_key_index) is Ok,
                0 < self.orders@.len() <= MAX_GROUPED_ORDER_COUNT,
                is_perps_market(self.orders@[0].market_index),
                market_index == self.orders@[0].market_index,
                grouped_orders_check(self.orders@.take(i as int), market_index) == Ok::<
                    (),
                    SdkError,
                >(()),
            decreases self.orders@.len() - i,
        {
            let r = check_grouped_order(&self.orders[i], market_index);
            proof {
                assert(self.orders@.take(i + 1).drop_last() =~= self.orders@.take(i as int));
                assert(self.orders@.take(i + 1).last() == self.orders@[i as int]);
                assert(grouped_orders_check(self.orders@.take(i + 1), market_index) == r);
            }
            if r.is_err() {
                proof {
                    lemma_grouped_prefix_failure(self.orders@, i + 1, market_index);
                }
                return r;
            }
            i = i + 1;
        }
        proof {
            assert(self.orders@.take(i as int) =~= self.orders@);
        }
        validate_nonce(self.nonce)?;
        validate_expired_at(self.expired_at)?;
        if self.grouping_type == GROUPING_TYPE_ONE_CANCELS_THE_OTHER {
            self.validate_oco()
        } else if self.grouping_type == GROUPING_TYPE_ONE_TRIGGERS_THE_OTHER {
            self.validate_oto()
        } else if self.grouping_type == GROUPING_TYPE_ONE_TRIGGERS_A_ONE_CANCELS_THE_OTHER {
            self.validate_otoco()
        } else {
            Err(SdkError::GroupingTypeInvalid)
        }
    }
}


// ---------------------------------------------------------------------------
// Remaining transaction kinds
// ---------------------------------------------------------------------------

pub open spec fn cancel_order_check(tx: L2CancelOrderTxInfo) -> Result<(), SdkError> {
    then_check(
        tx.l2_tx_attributes.check(),
        then_check(
            account_index_check(tx.account_index),
            then_check(
                api_key_index_check(tx.api_key_index),
                then_check(
                    market_index_check(tx.market_index),
                    then_check(
                        if tx.index < MIN_CLIENT_ORDER_INDEX {
                            Err(SdkError::OrderIndexTooLow)
                        } else if tx.index > MAX_ORDER_INDEX {
                            Err(SdkError::OrderIndexTooHigh)
                        } else {
                            Ok(())
                        },
                        nonce_and_expiry_check(tx.nonce, tx.expired_at),
                    ),
                ),
            ),
        ),
    )
}

pub open spec fn modify_order_check(tx: L2ModifyOrderTxInfo) -> Result<(), SdkError> {
    then_check(
        tx.l2_tx_attributes.check(),
        then_check(
            account_index_check(tx.account_index),
            then_check(
                api_key_index_check(tx.api_key_index),
                then_check(
                    market_index_check(tx.market_index),
                    then_check(
                        if tx.index < MIN_CLIENT_ORDER_INDEX {
                            Err(SdkError::ClientOrderIndexTooLow)
                        } else if tx.index > MAX_ORDER_INDEX {
                            Err(SdkError::ClientOrderIndexTooHigh)
                        } else if tx.base_amount != NIL_ORDER_BASE_AMOUNT && tx.base_amount
                            < MIN_ORDER_BASE_AMOUNT {
                            Err(SdkError::BaseAmountTooLow)
                        } else if tx.base_amount > MAX_ORDER_BASE_AMOUNT {
                            Err(SdkError::BaseAmountTooHigh)
                        } else if tx.price < MIN_ORDER_PRICE {
                            Err(SdkError::PriceTooLow)
                        } else if tx.trigger_price != NIL_ORDER_TRIGGER_PRICE && tx.trigger_price
                            < MIN_ORDER_TRIGGER_PRICE {
                            Err(SdkError::OrderTriggerPriceInvalid)
                        } else {
                            Ok(())
                        },
                        nonce_and_expiry_check(tx.nonce, tx.expired_at),
                    ),
                ),
            ),
        ),
    )
}

pub open spec fn cancel_all_mode_check(time_in_force: u8, time: i64) -> Result<(), SdkError> {
    if time_in_force == IMMEDIATE_CANCEL_ALL {
        if time != NIL_ORDER_EXPIRY {
            Err(SdkError::CancelAllTimeIsNotNil)
        } else {
            Ok(())
        }
    } else if time_in_force == SCHEDULED_CANCEL_ALL {
        if time < MIN_ORDER_EXPIRY {
            Err(SdkError::CancelAllTimeIsNotInRange)
        } else {
            Ok(())
        }
    } else if time_in_force == ABORT_SCHEDULED_CANCEL_ALL {
        if time != 0 {
            Err(SdkError::CancelAllTimeIsNotNil)
        } else {
            Ok(())
        }
    } else {
        Err(SdkError::InvalidCancelAllTimeInForce)
    }
}

pub open spec fn cancel_all_orders_check(tx: L2CancelAllOrdersTxInfo) -> Result<(), SdkError> {
    then_check(
        tx.l2_tx_attributes.check(),
        then_check(
            account_index_check(tx.account_index),
            then_check(
                if tx.api_key_index > MAX_API_KEY_INDEX && tx.api_key_index != NIL_API_KEY_INDEX {
                    Err(SdkError::ApiKeyIndexTooHigh)
                } else {
                    Ok(())
                },
                then_check(
                    nonce_and_expiry_check(tx.nonce, tx.expired_at),
                    cancel_all_mode_check(tx.time_in_force, tx.time),
                ),
            ),
        ),
    )
}

pub open spec fn is_route_type(r: u8) -> bool {
    r == ASSET_ROUTE_TYPE_PERPS || r == ASSET_ROUTE_TYPE_SPOT
}

pub open spec fn asset_index_check(asset_index: i16) -> Result<(), SdkError> {
    if asset_index < MIN_ASSET_INDEX {
        Err(SdkError::AssetIndexTooLow)
    } else if asset_index > MAX_ASSET_INDEX {
        Err(SdkError::AssetIndexTooHigh)
    } else {
        Ok(())
    }
}

pub open spec fn transfer_check(tx: L2TransferTxInfo) -> Result<(), SdkError> {
    then_check(
        tx.l2_tx_attributes.check(),
        then_check(
            if tx.from_account_index < MIN_ACCOUNT_INDEX + 1 {
                Err(SdkError::FromAccountIndexTooLow)
            } else if tx.from_account_index > MAX_ACCOUNT_INDEX {
                Err(SdkError::FromAccountIndexTooHigh)
            } else {
                Ok(())
            },
            then_check(
                api_key_index_check(tx.api_key_index),
                then_check(
                    if tx.to_account_index < MIN_ACCOUNT_INDEX {
                        Err(SdkError::ToAccountIndexTooLow)
                    } else if tx.to_account_index > MAX_ACCOUNT_INDEX {
                        Err(SdkError::ToAccountIndexTooHigh)
                    } else if asset_index_check(tx.asset_index) is Err {
                        asset_index_check(tx.asset_index)
                    } else if !is_route_type(tx.from_route_type) || !is_route_type(
                        tx.to_route_type,
                    ) {
                        Err(SdkError::RouteTypeInvalid)
                    } else if tx.amount <= 0 {
                        Err(SdkError::TransferAmountTooLow)
                    } else if tx.amount > MAX_TRANSFER_AMOUNT {
                        Err(SdkError::TransferAmountTooHigh)
                    } else if tx.usdc_fee < 0 {
                        Err(SdkError::TransferFeeNegative)
                    } else if tx.usdc_fee > MAX_TRANSFER_AMOUNT {
                        Err(SdkError::TransferFeeTooHigh)
                    } else {
                        Ok(())
                    },
                    nonce_and_expiry_check(tx.nonce, tx.expired_at),
                ),
            ),
        ),
    )
}

pub open spec fn withdraw_check(tx: L2WithdrawTxInfo) -> Result<(), SdkError> {
    then_check(
        tx.l2_tx_attributes.check(),
        then_check(
            if tx.from_account_index < MIN_ACCOUNT_INDEX {
                Err(SdkError::FromAccountIndexTooLow)
            } else if tx.from_account_index > MAX_ACCOUNT_INDEX {
                Err(SdkError::FromAccountIndexTooHigh)
            } else {
                Ok(())
            },
            then_check(
                api_key_index_check(tx.api_key_index),
                then_check(
                    if asset_index_check(tx.asset_index) is Err {
                        asset_index_check(tx.asset_index)
                    } else if !is_route_type(tx.route_type) {
                        Err(SdkError::RouteTypeInvalid)
                    } else if tx.amount == 0 {
                        Err(SdkError::WithdrawalAmountTooLow)
                    } else if tx.amount > MAX_WITHDRAWAL_AMOUNT {
                        Err(SdkError::WithdrawalAmountTooHigh)
                    } else {
                        Ok(())
                    },
                    nonce_and_expiry_check(tx.nonce, tx.expired_at),
                ),
            ),
        ),
    )
}

pub open spec fn master_account_index_check(index: i64) -> Result<(), SdkError> {
    if index < MIN_ACCOUNT_INDEX {
        Err(SdkError::AccountIndexTooLow)
    } else if index > MAX_MASTER_ACCOUNT_INDEX {
        Err(SdkError::AccountIndexTooHigh)
    } else {
        Ok(())
    }
}

pub open spec fn operator_fee_check(fee: i64) -> Result<(), SdkError> {
    if fee < 0 || fee > FEE_TICK {
        Err(SdkError::InvalidPoolOperatorFee)
    } else {
        Ok(())
    }
}

pub open spec fn create_public_pool_check(tx: L2CreatePublicPoolTxInfo) -> Result<(), SdkError> {
    then_check(
        tx.l2_tx_attributes.check(),
        then_check(
            master_account_index_check(tx.account_index),
            then_check(
                api_key_index_check(tx.api_key_index),
                then_check(
                    if operator_fee_check(tx.operator_fee) is Err {
                        operator_fee_check(tx.operator_fee)
                    } else if tx.initial_total_shares <= 0 {
                        Err(SdkError::PoolInitialTotalSharesTooLow)
                    } else if tx.initial_total_shares > MAX_INITIAL_TOTAL_SHARES {
                        Err(SdkError::PoolInitialTotalSharesTooHigh)
                    } else if tx.min_operator_share_rate > SHARE_TICK {
                        Err(SdkError::PoolMinOperatorShareRateTooHigh)
                    } else {
                        Ok(())
                    },
                    nonce_and_expiry_check(tx.nonce, tx.expired_at),
                ),
            ),
        ),
    )
}

pub open spec fn public_pool_index_check(index: i64) -> Result<(), SdkError> {
    if index < MIN_ACCOUNT_INDEX {
        Err(SdkError::PublicPoolIndexTooLow)
    } else if index > MAX_ACCOUNT_INDEX {
        Err(SdkError::PublicPoolIndexTooHigh)
    } else {
        Ok(())
    }
}

pub open spec fn update_public_pool_check(tx: L2UpdatePublicPoolTxInfo) -> Result<(), SdkError> {
    then_check(
        tx.l2_tx_attributes.check(),
        then_check(
            account_index_check(tx.account_index),
            then_check(
                api_key_index_check(tx.api_key_index),
                then_check(
                    if public_pool_index_check(tx.public_pool_index) is Err {
                        public_pool_index_check(tx.public_pool_index)
                    } else if tx.status != 0 && tx.status != 1 {
                        Err(SdkError::InvalidPoolStatus)
                    } else if operator_fee_check(tx.operator_fee) is Err {
                        operator_fee_check(tx.operator_fee)
                    } else if tx.min_operator_share_rate > SHARE_TICK {
                        Err(SdkError::PoolMinOperatorShareRateTooHigh)
                    } else {
                        Ok(())
                    },
                    nonce_and_expiry_check(tx.nonce, tx.expired_at),
                ),
            ),
        ),
    )
}

/// Shared shape of mint and burn: pool index, then the share amount bounds.
pub open spec fn share_change_check(
    account_index: i64,
    api_key_index: u8,
    public_pool_index: i64,
    share_amount: i64,
    too_low: SdkError,
    too_high: SdkError,
) -> Result<(), SdkError> {
    then_check(
        account_index_check(account_index),
        then_check(
            api_key_index_check(api_key_index),
            if public_pool_index_check(public_pool_index) is Err {
                public_pool_index_check(public_pool_index)
            } else if share_amount < MIN_POOL_SHARES_TO_MINT_OR_BURN {
                Err(too_low)
            } else if share_amount > MAX_POOL_SHARES_TO_MINT_OR_BURN {
                Err(too_high)
            } else {
                Ok(())
            },
        ),
    )
}

pub open spec fn mint_shares_check(tx: L2MintSharesTxInfo) -> Result<(), SdkError> {
    then_check(
        tx.l2_tx_attributes.check(),
        then_check(
            share_change_check(
                tx.account_index,
                tx.api_key_index,
                tx.public_pool_index,
                tx.share_amount,
                SdkError::PoolMintShareAmountTooLow,
                SdkError::PoolMintShareAmountTooHigh,
            ),
            nonce_and_expiry_check(tx.nonce, tx.expired_at),
        ),
    )
}

pub open spec fn burn_shares_check(tx: L2BurnSharesTxInfo) -> Result<(), SdkError> {
    then_check(
        tx.l2_tx_attributes.check(),
        then_check(
            share_change_check(
                tx.account_index,
                tx.api_key_index,
                tx.public_pool_index,
                tx.share_amount,
                SdkError::PoolBurnShareAmountTooLow,
                SdkError::PoolBurnShareAmountTooHigh,
            ),
            nonce_and_expiry_check(tx.nonce, tx.expired_at),
        ),
    )
}

pub open spec fn update_leverage_check(tx: L2UpdateLeverageTxInfo) -> Result<(), SdkError> {
    then_check(
        tx.l2_tx_attributes.check(),
        then_check(
            account_index_check(tx.account_index),
            then_check(
                api_key_index_check(tx.api_key_index),
                then_check(
                    if perps_market_check(tx.market_index) is Err {
                        perps_market_check(tx.market_index)
                    } else if tx.margin_mode != CROSS_MARGIN && tx.margin_mode != ISOLATED_MARGIN {
                        Err(SdkError::InvalidMarginMode)
                    } else if tx.initial_margin_fraction == 0 {
                        Err(SdkError::InitialMarginFractionTooLow)
                    } else if tx.initial_margin_fraction > MARGIN_FRACTION_TICK {
                        Err(SdkError::InitialMarginFractionTooHigh)
                    } else {
                        Ok(())
                    },
                    nonce_and_expiry_check(tx.nonce, tx.expired_at),
                ),
            ),
        ),
    )
}

pub open spec fn update_margin_check(tx: L2UpdateMarginTxInfo) -> Result<(), SdkError> {
    then_check(
        tx.l2_tx_attributes.check(),
        then_check(
            account_index_check(tx.account_index),
            then_check(
                api_key_index_check(tx.api_key_index),
                then_check(
                    if perps_market_check(tx.market_index) is Err {
                        perps_market_check(tx.market_index)
                    } else if tx.usdc_amount <= 0 {
                        Err(SdkError::TransferAmountTooLow)
                    } else if tx.usdc_amount > MAX_TRANSFER_AMOUNT {
                        Err(SdkError::TransferAmountTooHigh)
                    } else if tx.direction != REMOVE_FROM_ISOLATED_MARGIN && tx.direction
                        != ADD_TO_ISOLATED_MARGIN {
                        Err(SdkError::InvalidUpdateMarginDirection)
                    } else {
                        Ok(())
                    },
                    nonce_and_expiry_check(tx.nonce, tx.expired_at),
                ),
            ),
        ),
    )
}

impl TxInfo for L2CancelOrderTxInfo {
    fn tx_type(&self) -> (t: u8)
        ensures
            t == TX_TYPE_L2_CANCEL_ORDER,
    {
        TX_TYPE_L2_CANCEL_ORDER
    }

    fn tx_hash(&self) -> (h: &str)
        ensures
            h@ == self.signed_hash@,
    {
        self.signed_hash.as_str()
    }

    fn validate(&self) -> (res: Result<(), SdkError>)
        ensures
            res == cancel_order_check(*self),
    {
        self.l2_tx_attributes.validate()?;
        validate_account_index(self.account_index)?;
        validate_api_key_index(self.api_key_index)?;
        validate_market_index(self.market_index)?;
        if self.index < MIN_CLIENT_ORDER_INDEX {
            return Err(SdkError::OrderIndexTooLow);
        }
        if self.index > MAX_ORDER_INDEX {
            return Err(SdkError::OrderIndexTooHigh);
        }
        validate_nonce(self.nonce)?;
        validate_expired_at(self.expired_at)?;
        Ok(())
    }
}

impl TxInfo for L2ModifyOrderTxInfo {
    fn tx_type(&self) -> (t: u8)
        ensures
            t == TX_TYPE_L2_MODIFY_ORDER,
    {
        TX_TYPE_L2_MODIFY_ORDER
    }

    fn tx_hash(&self) -> (h: &str)
        ensures
            h@ == self.signed_hash@,
    {
        self.signed_hash.as_str()
    }

    fn validate(&self) -> (res: Result<(), SdkError>)
        ensures
            res == modify_order_check(*self),
    {
        self.l2_tx_attributes.validate()?;
        validate_account_index(self.account_index)?;
        validate_api_key_index(self.api_key_index)?;
        validate_market_index(self.market_index)?;
        if self.index < MIN_CLIENT_ORDER_INDEX {
            return Err(SdkError::ClientOrderIndexTooLow);
        }
        if self.index > MAX_ORDER_INDEX {
            return Err(SdkError::ClientOrderIndexTooHigh);
        }
        if self.base_amount != NIL_ORDER_BASE_AMOUNT && self.base_amount < MIN_ORDER_BASE_AMOUNT {
            return Err(SdkError::BaseAmountTooLow);
        }
        if self.base_amount > MAX_ORDER_BASE_AMOUNT {
            return Err(SdkError::BaseAmountTooHigh);
        }
        if self.price < MIN_ORDER_PRICE {
            return Err(SdkError::PriceTooLow);
        }
        if self.trigger_price != NIL_ORDER_TRIGGER_PRICE && self.trigger_price
            < MIN_ORDER_TRIGGER_PRICE {
            return Err(SdkError::OrderTriggerPriceInvalid);
        }
        validate_nonce(self.nonce)?;
        validate_expired_at(self.expired_at)?;
        Ok(())
    }
}

impl TxInfo for L2CancelAllOrdersTxInfo {
    fn tx_type(&self) -> (t: u8)
        ensures
            t == TX_TYPE_L2_CANCEL_ALL_ORDERS,
    {
        TX_TYPE_L2_CANCEL_ALL_ORDERS
    }

    fn tx_hash(&self) -> (h: &str)
        ensures
            h@ == self.signed_hash@,
    {
        self.signed_hash.as_str()
    }

    fn validate(&self) -> (res: Result<(), SdkError>)
        ensures
            res == cancel_all_orders_check(*self),
    {
        self.l2_tx_attributes.validate()?;
        validate_account_index(self.account_index)?;
        if self.api_key_index > MAX_API_KEY_INDEX && self.api_key_index != NIL_API_KEY_INDEX {
            return Err(SdkError::ApiKeyIndexTooHigh);
        }
        validate_nonce(self.nonce)?;
        validate_expired_at(self.expired_at)?;
        if self.time_in_force == IMMEDIATE_CANCEL_ALL {
            if self.time != NIL_ORDER_EXPIRY {
                return Err(SdkError::CancelAllTimeIsNotNil);
            }
        } else if self.time_in_force == SCHEDULED_CANCEL_ALL {
            if self.time < MIN_ORDER_EXPIRY {
                return Err(SdkError::CancelAllTimeIsNotInRange);
            }
        } else if self.time_in_force == ABORT_SCHEDULED_CANCEL_ALL {
            if self.time != 0 {
                return Err(SdkError::CancelAllTimeIsNotNil);
            }
        } else {
            return Err(SdkError::InvalidCancelAllTimeInForce);
        }
        Ok(())
    }
}

impl TxInfo for L2TransferTxInfo {
    fn tx_type(&self) -> (t: u8)
        ensures
            t == TX_TYPE_L2_TRANSFER,
    {
        TX_TYPE_L2_TRANSFER
    }

    fn tx_hash(&self) -> (h: &str)
        ensures
            h@ == self.signed_hash@,
    {
        self.signed_hash.as_str()
    }

    fn validate(&self) -> (res: Result<(), SdkError>)
        ensures
            res == transfer_check(*self),
    {
        self.l2_tx_attributes.validate()?;
        if self.from_account_index < MIN_ACCOUNT_INDEX + 1 {
            return Err(SdkError::FromAccountIndexTooLow);
        }
        if self.from_account_index > MAX_ACCOUNT_INDEX {
            return Err(SdkError::FromAccountIndexTooHigh);
        }
        validate_api_key_index(self.api_key_index)?;
        if self.to_account_index < MIN_ACCOUNT_INDEX {
            return Err(SdkError::ToAccountIndexTooLow);
        }
        if self.to_account_index > MAX_ACCOUNT_INDEX {
            return Err(SdkError::ToAccountIndexTooHigh);
        }
        if self.asset_index < MIN_ASSET_INDEX {
            return Err(SdkError::AssetIndexTooLow);
        }
        if self.asset_index > MAX_ASSET_INDEX {
            return Err(SdkError::AssetIndexTooHigh);
        }
        if self.from_route_type != ASSET_ROUTE_TYPE_PERPS && self.from_route_type
            != ASSET_ROUTE_TYPE_SPOT {
            return Err(SdkError::RouteTypeInvalid);
        }
        if self.to_route_type != ASSET_ROUTE_TYPE_PERPS && self.to_route_type
            != ASSET_ROUTE_TYPE_SPOT {
            return Err(SdkError::RouteTypeInvalid);
        }
        if self.amount <= 0 {
            return Err(SdkError::TransferAmountTooLow);
        }
        if self.amount > MAX_TRANSFER_AMOUNT {
            return Err(SdkError::TransferAmountTooHigh);
        }
        if self.usdc_fee < 0 {
            return Err(SdkError::TransferFeeNegative);
        }
        if self.usdc_fee > MAX_TRANSFER_AMOUNT {
            return Err(SdkError::TransferFeeTooHigh);
        }
        validate_nonce(self.nonce)?;
        validate_expired_at(self.expired_at)?;
        Ok(())
    }
}

impl TxInfo for L2WithdrawTxInfo {
    fn tx_type(&self) -> (t: u8)
        ensures
            t == TX_TYPE_L2_WITHDRAW,
    {
        TX_TYPE_L2_WITHDRAW
    }

    fn tx_hash(&self) -> (h: &str)
        ensures
            h@ == self.signed_hash@,
    {
        self.signed_hash.as_str()
    }

    fn validate(&self) -> (res: Result<(), SdkError>)
        ensures
            res == withdraw_check(*self),
    {
        self.l2_tx_attributes.validate()?;
        if self.from_account_index < MIN_ACCOUNT_INDEX {
            return Err(SdkError::FromAccountIndexTooLow);
        }
        if self.from_account_index > MAX_ACCOUNT_INDEX {
            return Err(SdkError::FromAccountIndexTooHigh);
        }
        validate_api_key_index(self.api_key_index)?;
        if self.asset_index < MIN_ASSET_INDEX {
            return Err(SdkError::AssetIndexTooLow);
        }
        if self.asset_index > MAX_ASSET_INDEX {
            return Err(SdkError::AssetIndexTooHigh);
        }
        if self.route_type != ASSET_ROUTE_TYPE_PERPS && self.route_type != ASSET_ROUTE_TYPE_SPOT {
            return Err(SdkError::RouteTypeInvalid);
        }
        if self.amount == 0 {
            return Err(SdkError::WithdrawalAmountTooLow);
        }
        if self.amount > MAX_WITHDRAWAL_AMOUNT {
            return Err(SdkError::WithdrawalAmountTooHigh);
        }
        validate_nonce(self.nonce)?;
        validate_expired_at(self.expired_at)?;
        Ok(())
    }
}

impl TxInfo for L2CreatePublicPoolTxInfo {
    fn tx_type(&self) -> (t: u8)
        ensures
            t == TX_TYPE_L2_CREATE_PUBLIC_POOL,
    {
        TX_TYPE_L2_CREATE_PUBLIC_POOL
    }

    fn tx_hash(&self) -> (h: &str)
        ensures
            h@ == self.signed_hash@,
    {
        self.signed_hash.as_str()
    }

    fn validate(&self) -> (res: Result<(), SdkError>)
        ensures
            res == create_public_pool_check(*self),
    {
        self.l2_tx_attributes.validate()?;
        if self.account_index < MIN_ACCOUNT_INDEX {
            return Err(SdkError::AccountIndexTooLow);
        }
        if self.account_index > MAX_MASTER_ACCOUNT_INDEX {
            return Err(SdkError::AccountIndexTooHigh);
        }
        validate_api_key_index(self.api_key_index)?;
        if self.operator_fee < 0 || self.operator_fee > FEE_TICK {
            return Err(SdkError::InvalidPoolOperatorFee);
        }
        if self.initial_total_shares <= 0 || self.initial_total_shares > MAX_INITIAL_TOTAL_SHARES {
            return Err(
                if self.initial_total_shares <= 0 {
                    SdkError::PoolInitialTotalSharesTooLow
                } else {
                    SdkError::PoolInitialTotalSharesTooHigh
                },
            );
        }
        if self.min_operator_share_rate > SHARE_TICK {
            return Err(SdkError::PoolMinOperatorShareRateTooHigh);
        }
        validate_nonce(self.nonce)?;
        validate_expired_at(self.expired_at)?;
        Ok(())
    }
}

impl TxInfo for L2UpdatePublicPoolTxInfo {
    fn tx_type(&self) -> (t: u8)
        ensures
            t == TX_TYPE_L2_UPDATE_PUBLIC_POOL,
    {
        TX_TYPE_L2_UPDATE_PUBLIC_POOL
    }

    fn tx_hash(&self) -> (h: &str)
        ensures
            h@ == self.signed_hash@,
    {
        self.signed_hash.as_str()
    }

    fn validate(&self) -> (res: Result<(), SdkError>)
        ensures
            res == update_public_pool_check(*self),
    {
        self.l2_tx_attributes.validate()?;
        validate_account_index(self.account_index)?;
        validate_api_key_index(self.api_key_index)?;
        if self.public_pool_index < MIN_ACCOUNT_INDEX {
            return Err(SdkError::PublicPoolIndexTooLow);
        }
        if self.public_pool_index > MAX_ACCOUNT_INDEX {
            return Err(SdkError::PublicPoolIndexTooHigh);
        }
        if self.status != 0 && self.status != 1 {
            return Err(SdkError::InvalidPoolStatus);
        }
        if self.operator_fee < 0 || self.operator_fee > FEE_TICK {
            return Err(SdkError::InvalidPoolOperatorFee);
        }
        if self.min_operator_share_rate > SHARE_TICK {
            return Err(SdkError::PoolMinOperatorShareRateTooHigh);
        }
        validate_nonce(self.nonce)?;
        validate_expired_at(self.expired_at)?;
        Ok(())
    }
}

impl TxInfo for L2MintSharesTxInfo {
    fn tx_type(&self) -> (t: u8)
        ensures
            t == TX_TYPE_L2_MINT_SHARES,
    {
        TX_TYPE_L2_MINT_SHARES
    }

    fn tx_hash(&self) -> (h: &str)
        ensures
            h@ == self.signed_hash@,
    {
        self.signed_hash.as_str()
    }

    fn validate(&self) -> (res: Result<(), SdkError>)
        ensures
            res == mint_shares_check(*self),
    {
        self.l2_tx_attributes.validate()?;
        validate_account_index(self.account_index)?;
        validate_api_key_index(self.api_key_index)?;
        if self.public_pool_index < MIN_ACCOUNT_INDEX {
            return Err(SdkError::PublicPoolIndexTooLow);
        }
        if self.public_pool_index > MAX_ACCOUNT_INDEX {
            return Err(SdkError::PublicPoolIndexTooHigh);
        }
        if self.share_amount < MIN_POOL_SHARES_TO_MINT_OR_BURN {
            return Err(SdkError::PoolMintShareAmountTooLow);
        }
        if self.share_amount > MAX_POOL_SHARES_TO_MINT_OR_BURN {
            return Err(SdkError::PoolMintShareAmountTooHigh);
        }
        validate_nonce(self.nonce)?;
        validate_expired_at(self.expired_at)?;
        Ok(())
    }
}

impl TxInfo for L2BurnSharesTxInfo {
    fn tx_type(&self) -> (t: u8)
        ensures
            t == TX_TYPE_L2_BURN_SHARES,
    {
        TX_TYPE_L2_BURN_SHARES
    }

    fn tx_hash(&self) -> (h: &str)
        ensures
            h@ == self.signed_hash@,
    {
        self.signed_hash.as_str()
    }

    fn validate(&self) -> (res: Result<(), SdkError>)
        ensures
            res == burn_shares_check(*self),
    {
        self.l2_tx_attributes.validate()?;
        validate_account_index(self.account_index)?;
        validate_api_key_index(self.api_key_index)?;
        if self.public_pool_index < MIN_ACCOUNT_INDEX {
            return Err(SdkError::PublicPoolIndexTooLow);
        }
        if self.public_pool_index > MAX_ACCOUNT_INDEX {
            return Err(SdkError::PublicPoolIndexTooHigh);
        }
        if self.share_amount < MIN_POOL_SHARES_TO_MINT_OR_BURN {
            return Err(SdkError::PoolBurnShareAmountTooLow);
        }
        if self.share_amount > MAX_POOL_SHARES_TO_MINT_OR_BURN {
            return Err(SdkError::PoolBurnShareAmountTooHigh);
        }
        validate_nonce(self.nonce)?;
        validate_expired_at(self.expired_at)?;
        Ok(())
    }
}

impl TxInfo for L2UpdateLeverageTxInfo {
    fn tx_type(&self) -> (t: u8)
        ensures
            t == TX_TYPE_L2_UPDATE_LEVERAGE,
    {
        TX_TYPE_L2_UPDATE_LEVERAGE
    }

    fn tx_hash(&self) -> (h: &str)
        ensures
            h@ == self.signed_hash@,
    {
        self.signed_hash.as_str()
    }

    fn validate(&self) -> (res: Result<(), SdkError>)
        ensures
            res == update_leverage_check(*self),
    {
        self.l2_tx_attributes.validate()?;
        validate_account_index(self.account_index)?;
        validate_api_key_index(self.api_key_index)?;
        if self.market_index < MIN_PERPS_MARKET_INDEX || self.market_index > MAX_PERPS_MARKET_INDEX {
            return Err(SdkError::InvalidMarketIndex);
        }
        if self.margin_mode != CROSS_MARGIN && self.margin_mode != ISOLATED_MARGIN {
            return Err(SdkError::InvalidMarginMode);
        }
        if self.initial_margin_fraction == 0 || self.initial_margin_fraction as i64
            > MARGIN_FRACTION_TICK {
            return Err(
                if self.initial_margin_fraction == 0 {
                    SdkError::InitialMarginFractionTooLow
                } else {
                    SdkError::InitialMarginFractionTooHigh
                },
            );
        }
        validate_nonce(self.nonce)?;
        validate_expired_at(self.expired_at)?;
        Ok(())
    }
}

impl TxInfo for L2UpdateMarginTxInfo {
    fn tx_type(&self) -> (t: u8)
        ensures
            t == TX_TYPE_L2_UPDATE_MARGIN,
    {
        TX_TYPE_L2_UPDATE_MARGIN
    }

    fn tx_hash(&self) -> (h: &str)
        ensures
            h@ == self.signed_hash@,
    {
        self.signed_hash.as_str()
    }

    fn validate(&self) -> (res: Result<(), SdkError>)
        ensures
            res == update_margin_check(*self),
    {
        self.l2_tx_attributes.validate()?;
        validate_account_index(self.account_index)?;
        validate_api_key_index(self.api_key_index)?;
        if self.market_index < MIN_PERPS_MARKET_INDEX || self.market_index > MAX_PERPS_MARKET_INDEX {
            return Err(SdkError::InvalidMarketIndex);
        }
        if self.usdc_amount <= 0 || self.usdc_amount > MAX_TRANSFER_AMOUNT {
            return Err(
                if self.usdc_amount <= 0 {
                    SdkError::TransferAmountTooLow
                } else {
                    SdkError::TransferAmountTooHigh
                },
            );
        }
        if self.direction != REMOVE_FROM_ISOLATED_MARGIN && self.direction
            != ADD_TO_ISOLATED_MARGIN {
            return Err(SdkError::InvalidUpdateMarginDirection);
        }
        validate_nonce(self.nonce)?;
        validate_expired_at(self.expired_at)?;
        Ok(())
    }
}

/// The bounds every accepted payload meets: valid attributes, a nonce with
/// `0 <= nonce < 2^47 - 1`, and an expiry within `0..=MAX_TIMESTAMP`.
pub open spec fn payload_bounds_hold(nonce: i64, expired_at: i64, attributes: L2TxAttributes) -> bool {
    &&& attributes.check() is Ok
    &&& MIN_NONCE <= nonce < MAX_NONCE_EXCLUSIVE
    &&& 0 <= expired_at <= MAX_TIMESTAMP
}

/// Every payload that passes validation meets [`payload_bounds_hold`],
/// whatever its attributes ask: skipping a nonce does not lift the nonce bound.
pub proof fn lemma_validated_payloads_meet_bounds()
    ensures
        forall|tx: L2ChangePubKeyTxInfo| #[trigger] change_pub_key_check(tx) is Ok ==> payload_bounds_hold(tx.nonce, tx.expired_at, tx.l2_tx_attributes),
        forall|tx: L2CreateSubAccountTxInfo| #[trigger] create_sub_account_check(tx) is Ok ==> payload_bounds_hold(tx.nonce, tx.expired_at, tx.l2_tx_attributes),
        forall|tx: L2CreateOrderTxInfo| #[trigger] create_order_check(tx) is Ok ==> payload_bounds_hold(tx.nonce, tx.expired_at, tx.l2_tx_attributes),
        forall|tx: L2CreateGroupedOrdersTxInfo| #[trigger] create_grouped_orders_check(tx) is Ok ==> payload_bounds_hold(tx.nonce, tx.expired_at, tx.l2_tx_attributes),
        forall|tx: L2CancelOrderTxInfo| #[trigger] cancel_order_check(tx) is Ok ==> payload_bounds_hold(tx.nonce, tx.expired_at, tx.l2_tx_attributes),
        forall|tx: L2ModifyOrderTxInfo| #[trigger] modify_order_check(tx) is Ok ==> payload_bounds_hold(tx.nonce, tx.expired_at, tx.l2_tx_attributes),
        forall|tx: L2CancelAllOrdersTxInfo| #[trigger] cancel_all_orders_check(tx) is Ok ==> payload_bounds_hold(tx.nonce, tx.expired_at, tx.l2_tx_attributes),
        forall|tx: L2TransferTxInfo| #[trigger] transfer_check(tx) is Ok ==> payload_bounds_hold(tx.nonce, tx.expired_at, tx.l2_tx_attributes),
        forall|tx: L2WithdrawTxInfo| #[trigger] withdraw_check(tx) is Ok ==> payload_bounds_hold(tx.nonce, tx.expired_at, tx.l2_tx_attributes),
        forall|tx: L2CreatePublicPoolTxInfo| #[trigger] create_public_pool_check(tx) is Ok ==> payload_bounds_hold(tx.nonce, tx.expired_at, tx.l2_tx_attributes),
        forall|tx: L2UpdatePublicPoolTxInfo| #[trigger] update_public_pool_check(tx) is Ok ==> payload_bounds_hold(tx.nonce, tx.expired_at, tx.l2_tx_attributes),
        forall|tx: L2MintSharesTxInfo| #[trigger] mint_shares_check(tx) is Ok ==> payload_bounds_hold(tx.nonce, tx.expired_at, tx.l2_tx_attributes),
        forall|tx: L2BurnSharesTxInfo| #[trigger] burn_shares_check(tx) is Ok ==> payload_bounds_hold(tx.nonce, tx.expired_at, tx.l2_tx_attributes),
        forall|tx: L2UpdateLeverageTxInfo| #[trigger] update_leverage_check(tx) is Ok ==> payload_bounds_hold(tx.nonce, tx.expired_at, tx.l2_tx_attributes),
        forall|tx: L2UpdateMarginTxInfo| #[trigger] update_margin_check(tx) is Ok ==> payload_bounds_hold(tx.nonce, tx.expired_at, tx.l2_tx_attributes),
{
}

/// The type rules of an order. A market order must be immediate-or-cancel,
/// without expiry and without trigger price. A limit order has no trigger
/// price, and has an expiry exactly when it is not immediate-or-cancel. A
/// stop-loss or take-profit order needs a perps market, immediate-or-cancel,
/// a trigger price and an expiry; its limit variant needs a perps market, a
/// trigger price and an expiry. A TWAP order must be good-till-time, without
/// trigger price and with an expiry. Any other type is refused. The first
/// rule broken, in the order listed, gives the error.
pub proof fn lemma_order_type_rules(o: OrderInfo, is_perps: bool)
    ensures
        o.order_type == MARKET_ORDER ==> order_type_check(o, is_perps) == (if o.time_in_force
            != IMMEDIATE_OR_CANCEL {
            Err(SdkError::OrderTimeInForceInvalid)
        } else if o.order_expiry != NIL_ORDER_EXPIRY {
            Err(SdkError::OrderExpiryInvalid)
        } else if o.trigger_price != NIL_ORDER_TRIGGER_PRICE {
            Err(SdkError::OrderTriggerPriceInvalid)
        } else {
            Ok(())
        }),
        o.order_type == MARKET_ORDER && o.time_in_force == IMMEDIATE_OR_CANCEL && o.order_expiry
            == NIL_ORDER_EXPIRY && o.trigger_price == NIL_ORDER_TRIGGER_PRICE ==> order_type_check(
            o,
            is_perps,
        ) is Ok,
        o.order_type == LIMIT_ORDER ==> (order_type_check(o, is_perps) is Ok <==> o.trigger_price
            == NIL_ORDER_TRIGGER_PRICE && (o.time_in_force == IMMEDIATE_OR_CANCEL <==> o.order_expiry
            == NIL_ORDER_EXPIRY)),
        o.order_type == LIMIT_ORDER && o.trigger_price != NIL_ORDER_TRIGGER_PRICE ==> order_type_check(
            o,
            is_perps,
        ) == Err::<(), SdkError>(SdkError::OrderTriggerPriceInvalid),
        o.order_type == LIMIT_ORDER && o.trigger_price == NIL_ORDER_TRIGGER_PRICE && !(
        o.time_in_force == IMMEDIATE_OR_CANCEL <==> o.order_expiry == NIL_ORDER_EXPIRY)
            ==> order_type_check(o, is_perps) == Err::<(), SdkError>(SdkError::OrderExpiryInvalid),
        o.order_type == STOP_LOSS_ORDER || o.order_type == TAKE_PROFIT_ORDER ==> order_type_check(
            o,
            is_perps,
        ) == (if !is_perps {
            Err(SdkError::OrderTypeInvalid)
        } else if o.time_in_force != IMMEDIATE_OR_CANCEL {
            Err(SdkError::OrderTimeInForceInvalid)
        } else if o.trigger_price == NIL_ORDER_TRIGGER_PRICE {
            Err(SdkError::OrderTriggerPriceInvalid)
        } else if o.order_expiry == NIL_ORDER_EXPIRY {
            Err(SdkError::OrderExpiryInvalid)
        } else {
            Ok(())
        }),
        o.order_type == STOP_LOSS_LIMIT_ORDER || o.order_type == TAKE_PROFIT_LIMIT_ORDER
            ==> order_type_check(o, is_perps) == (if !is_perps {
            Err(SdkError::OrderTypeInvalid)
        } else if o.trigger_price == NIL_ORDER_TRIGGER_PRICE {
            Err(SdkError::OrderTriggerPriceInvalid)
        } else if o.order_expiry == NIL_ORDER_EXPIRY {
            Err(SdkError::OrderExpiryInvalid)
        } else {
            Ok(())
        }),
        o.order_type == TWAP_ORDER ==> order_type_check(o, is_perps) == (if o.time_in_force
            != GOOD_TILL_TIME {
            Err(SdkError::OrderTimeInForceInvalid)
        } else if o.trigger_price != NIL_ORDER_TRIGGER_PRICE {
            Err(SdkError::OrderTriggerPriceInvalid)
        } else if o.order_expiry == NIL_ORDER_EXPIRY {
            Err(SdkError::OrderExpiryInvalid)
        } else {
            Ok(())
        }),
        o.order_type != MARKET_ORDER && o.order_type != LIMIT_ORDER && o.order_type
            != STOP_LOSS_ORDER && o.order_type != TAKE_PROFIT_ORDER && o.order_type
            != STOP_LOSS_LIMIT_ORDER && o.order_type != TAKE_PROFIT_LIMIT_ORDER && o.order_type
            != TWAP_ORDER ==> order_type_check(o, is_perps) == Err::<(), SdkError>(
            SdkError::OrderTypeInvalid,
        ),
{
}

/// Every field rule of one order holds: the client order index is nil or in
/// range; the base amount is given unless the order is reduce-only, at least
/// the minimum when given, and at most the maximum; the price is at least the
/// minimum; the side is 0 or 1; the time in force is immediate-or-cancel,
/// good-till-time or post-only; reduce-only is 0 or 1 and never 1 on a spot
/// market; the expiry is nil or at least the minimum; the order type's own
/// rules hold; and the trigger price is nil or at least the minimum.
pub open spec fn order_fields_valid(o: OrderInfo, is_perps: bool, is_spot: bool) -> bool {
    &&& o.client_order_index == NIL_CLIENT_ORDER_INDEX || (MIN_CLIENT_ORDER_INDEX
        <= o.client_order_index <= MAX_CLIENT_ORDER_INDEX)
    &&& o.reduce_only == 1 || o.base_amount != NIL_ORDER_BASE_AMOUNT
    &&& o.base_amount == NIL_ORDER_BASE_AMOUNT || o.base_amount >= MIN_ORDER_BASE_AMOUNT
    &&& o.base_amount <= MAX_ORDER_BASE_AMOUNT
    &&& o.price >= MIN_ORDER_PRICE
    &&& o.is_ask == 0 || o.is_ask == 1
    &&& o.time_in_force == IMMEDIATE_OR_CANCEL || o.time_in_force == GOOD_TILL_TIME
        || o.time_in_force == POST_ONLY
    &&& o.reduce_only == 0 || o.reduce_only == 1
    &&& !(is_spot && o.reduce_only == 1)
    &&& o.order_expiry == NIL_ORDER_EXPIRY || o.order_expiry >= MIN_ORDER_EXPIRY
    &&& order_type_check(o, is_perps) is Ok
    &&& o.trigger_price == NIL_ORDER_TRIGGER_PRICE || o.trigger_price >= MIN_ORDER_TRIGGER_PRICE
}

/// An order passes its checks exactly when every field rule holds.
pub proof fn lemma_single_order_rules(o: OrderInfo, is_perps: bool, is_spot: bool)
    ensures
        single_order_check(o, is_perps, is_spot) is Ok <==> order_fields_valid(o, is_perps, is_spot),
{
}

/// A create-order transaction passes validation exactly when its attributes
/// are valid, its account index is in range, its API key index is at most
/// the maximum, its market is a perps or a spot market, every rule of its
/// order holds for that market, its nonce is in `[0, 2^47 - 1)` and its
/// expiry time is a timestamp in range. In particular an immediate-or-cancel
/// market order without expiry and trigger price, with valid fields, passes.
pub proof fn lemma_create_order_rules(tx: L2CreateOrderTxInfo)
    ensures
        create_order_check(tx) is Ok <==> ({
            let m = tx.order_info.market_index;
            &&& tx.l2_tx_attributes.check() is Ok
            &&& MIN_ACCOUNT_INDEX <= tx.account_index <= MAX_ACCOUNT_INDEX
            &&& tx.api_key_index <= MAX_API_KEY_INDEX
            &&& is_perps_market(m) || is_spot_market(m)
            &&& order_fields_valid(tx.order_info, is_perps_market(m), is_spot_market(m))
            &&& MIN_NONCE <= tx.nonce < MAX_NONCE_EXCLUSIVE
            &&& 0 <= tx.expired_at <= MAX_TIMESTAMP
        }),
{
    lemma_single_order_rules(
        tx.order_info,
        is_perps_market(tx.order_info.market_index),
        is_spot_market(tx.order_info.market_index),
    );
}

} // verus!
