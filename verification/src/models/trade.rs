//! Trades.

use vstd::prelude::*;

verus! {

/// One trade between a maker and a taker.
#[derive(Debug, Clone)]
pub struct Trade {
    pub trade_id: i64,
    pub tx_hash: String,
    pub trade_type: String,
    pub market_id: i64,
    pub size: String,
    pub price: String,
    pub usd_amount: String,
    pub ask_id: i64,
    pub bid_id: i64,
    pub ask_client_id: Option<i64>,
    pub bid_client_id: Option<i64>,
    pub ask_account_id: i64,
    pub bid_account_id: i64,
    pub is_maker_ask: bool,
    pub block_height: i64,
    pub timestamp: i64,
    pub taker_fee: Option<i64>,
    pub taker_position_size_before: Option<String>,
    pub taker_entry_quote_before: Option<String>,
    pub taker_initial_margin_fraction_before: Option<i64>,
    pub taker_position_sign_changed: Option<bool>,
    pub maker_fee: Option<i64>,
    pub maker_position_size_before: Option<String>,
    pub maker_entry_quote_before: Option<String>,
    pub maker_initial_margin_fraction_before: Option<i64>,
    pub maker_position_sign_changed: Option<bool>,
    pub transaction_time: i64,
    pub ask_account_pnl: Option<String>,
    pub bid_account_pnl: Option<String>,
}

/// A page of trades.
#[derive(Debug, Clone)]
pub struct Trades {
    pub code: i64,
    pub message: Option<String>,
    pub trades: Vec<Trade>,
    pub cursor: Option<String>,
}

} // verus!
