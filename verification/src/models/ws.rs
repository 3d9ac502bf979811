//! Websocket message payloads.

use vstd::prelude::*;

use std::collections::HashMap;

use super::asset::Asset;
use super::order::Order;
use super::order_book::PriceLevel;

verus! {

/// Common header of websocket messages.
#[derive(Debug, Clone)]
pub struct WsMessage {
    pub msg_type: String,
    pub channel: String,
}

/// An order book snapshot or delta as carried by a websocket message.
#[derive(Debug, Clone)]
pub struct WsOrderBook {
    pub code: i64,
    pub asks: Vec<PriceLevel>,
    pub bids: Vec<PriceLevel>,
    pub offset: i64,
    pub nonce: i64,
    pub begin_nonce: i64,
}

/// A `subscribed/order_book` or `update/order_book` message.
#[derive(Debug, Clone)]
pub struct WsOrderBookMessage {
    pub msg_type: String,
    pub channel: String,
    pub offset: i64,
    pub order_book: WsOrderBook,
    pub timestamp: i64,
}

/// Local normalized state used by the sdk orderbook handler.
#[derive(Debug, Clone)]
pub struct WsOrderBookState {
    pub asks: Vec<PriceLevel>,
    pub bids: Vec<PriceLevel>,
    pub nonce: i64,
}

impl WsOrderBookState {
    /// The state that a snapshot describes: its levels and its nonce.
    pub fn from_order_book(value: &WsOrderBook) -> (res: Self)
        ensures
            res.asks@ == value.asks@,
            res.bids@ == value.bids@,
            res.nonce == value.nonce,
    {
        WsOrderBookState { asks: value.asks.clone(), bids: value.bids.clone(), nonce: value.nonce }
    }
}

impl From<WsOrderBook> for WsOrderBookState {
    /// The state that a snapshot describes: its levels and its nonce.
    fn from(value: WsOrderBook) -> (res: Self) {
        WsOrderBookState { asks: value.asks, bids: value.bids, nonce: value.nonce }
    }
}

impl vstd::std_specs::convert::FromSpecImpl<WsOrderBook> for WsOrderBookState {
    open spec fn obeys_from_spec() -> bool {
        true
    }

    open spec fn from_spec(v: WsOrderBook) -> WsOrderBookState {
        WsOrderBookState { asks: v.asks, bids: v.bids, nonce: v.nonce }
    }
}

/// A transaction as the websocket reports it.
#[derive(Debug, Clone)]
pub struct Transaction {
    pub hash: String,
    pub tx_type: i64,
    pub info: String,
    pub event_info: String,
    pub status: i64,
    pub transaction_index: i64,
    pub l1_address: String,
    pub account_index: i64,
    pub nonce: i64,
    pub expire_at: i64,
    pub block_height: i64,
    pub queued_at: i64,
    pub executed_at: i64,
    pub sequence_index: i64,
    pub parent_hash: String,
    pub api_key_index: i64,
    pub transaction_time: i64,
    pub committed_at: i64,
    pub verified_at: i64,
}

/// A position as the websocket reports it.
#[derive(Debug, Clone)]
pub struct Position {
    pub market_id: i64,
    pub symbol: String,
    pub initial_margin_fraction: String,
    pub open_order_count: i64,
    pub pending_order_count: i64,
    pub position_tied_order_count: i64,
    pub sign: i64,
    pub position: String,
    pub avg_entry_price: String,
    pub position_value: String,
    pub unrealized_pnl: String,
    pub realized_pnl: String,
    pub liquidation_price: String,
    pub total_funding_paid_out: String,
    pub margin_mode: i64,
    pub allocated_margin: String,
}

/// A position together with its fee discount.
#[derive(Debug, Clone)]
pub struct PositionWithDiscount {
    pub market_id: i64,
    pub symbol: String,
    pub initial_margin_fraction: String,
    pub open_order_count: i64,
    pub pending_order_count: i64,
    pub position_tied_order_count: i64,
    pub sign: i64,
    pub position: String,
    pub avg_entry_price: String,
    pub position_value: String,
    pub unrealized_pnl: String,
    pub realized_pnl: String,
    pub liquidation_price: String,
    pub total_funding_paid_out: String,
    pub margin_mode: i64,
    pub allocated_margin: String,
    pub total_discount: String,
}

/// Shares an account holds in a public pool.
#[derive(Debug, Clone)]
pub struct PoolShares {
    pub public_pool_index: i64,
    pub shares_amount: i64,
    pub entry_usdc: String,
}

/// An `account_orders` update: the orders of an account, by market.
#[derive(Debug, Clone)]
pub struct WsAccountOrdersUpdate {
    pub msg_type: String,
    pub account: i64,
    pub channel: String,
    pub orders: HashMap<String, Vec<Order>>,
    pub nonce: i64,
}

/// An `account_all_assets` update.
#[derive(Debug, Clone)]
pub struct WsAccountAllAssetsUpdate {
    pub msg_type: String,
    pub channel: String,
    pub assets: Vec<Asset>,
}

/// An `account_all_positions` update: positions by market, and pool shares.
#[derive(Debug, Clone)]
pub struct WsAccountAllPositionsUpdate {
    pub msg_type: String,
    pub channel: String,
    pub positions: HashMap<String, PositionWithDiscount>,
    pub shares: Vec<PoolShares>,
}

/// The average entry price of a spot asset.
#[derive(Debug, Clone)]
pub struct SpotAvgEntryPrice {
    pub asset_id: i64,
    pub avg_entry_price: String,
    pub asset_size: String,
    pub last_trade_id: i64,
}

/// An `account_spot_avg_entry_prices` update.
#[derive(Debug, Clone)]
pub struct WsAccountSpotAvgEntryPricesUpdate {
    pub msg_type: String,
    pub channel: String,
    pub avg_entry_prices: HashMap<String, SpotAvgEntryPrice>,
}

/// An `account_all_orders` update: the orders of an account, by market.
#[derive(Debug, Clone)]
pub struct WsAccountAllOrdersUpdate {
    pub msg_type: String,
    pub channel: String,
    pub orders: HashMap<String, Vec<Order>>,
}

/// A block of user statistics.
#[derive(Debug, Clone)]
pub struct UserStatsBlock {
    pub collateral: Option<String>,
    pub portfolio_value: Option<String>,
    pub leverage: Option<String>,
    pub available_balance: Option<String>,
    pub margin_usage: Option<String>,
    pub buying_power: Option<String>,
    pub account_trading_mode: Option<i64>,
}

/// A `user_stats` update.
#[derive(Debug, Clone)]
pub struct WsUserStatsUpdate {
    pub msg_type: String,
    pub channel: String,
    pub stats: UserStatsWithSub,
}

/// The top-level statistics with optional cross and total statistics.
#[derive(Debug, Clone)]
pub struct UserStatsWithSub {
    pub top: UserStatsBlock,
    pub cross_stats: Option<UserStatsBlock>,
    pub total_stats: Option<UserStatsBlock>,
}

} // verus!
