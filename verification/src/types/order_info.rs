//! The order description shared by single and grouped order transactions.

use vstd::prelude::*;

verus! {

/// One order as it is signed and sent: market, sizes, prices and flags.
#[derive(Debug, Clone, Copy, PartialEq, Eq, Structural)]
pub struct OrderInfo {
    pub market_index: i16,
    pub client_order_index: i64,
    pub base_amount: i64,
    pub price: u32,
    pub is_ask: u8,
    pub order_type: u8,
    pub time_in_force: u8,
    pub reduce_only: u8,
    pub trigger_price: u32,
    pub order_expiry: i64,
}

} // verus!
