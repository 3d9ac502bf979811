//! Order book levels and depth.

use vstd::prelude::*;

use super::order::SimpleOrder;

verus! {

/// One price level of an order book: a price and the size resting there,
/// both as the decimal text the exchange sends.
#[derive(Debug)]
pub struct PriceLevel {
    pub price: String,
    pub size: String,
}

impl Clone for PriceLevel {
    fn clone(&self) -> (res: Self)
        ensures
            res == *self,
    {
        PriceLevel { price: self.price.clone(), size: self.size.clone() }
    }
}

/// Depth snapshot of an order book as the REST API returns it.
#[derive(Debug, Clone)]
pub struct OrderBookDepth {
    pub code: i64,
    pub message: Option<String>,
    pub total_asks: Option<i64>,
    pub asks: Vec<SimpleOrder>,
    pub total_bids: Option<i64>,
    pub bids: Vec<SimpleOrder>,
}

} // verus!
