//! Accounts, their positions and API keys.

use vstd::prelude::*;

use crate::decimal::{is_above_zero_numeral, is_below_zero_numeral, numeral_sign};

verus! {

/// A position of an account in one market, as the REST API reports it.
#[derive(Debug, Clone)]
pub struct AccountPosition {
    pub market_id: i64,
    pub symbol: String,
    pub initial_margin_fraction: String,
    pub open_order_count: i64,
    pub pending_order_count: i64,
    pub position_tied_order_count: i64,
    pub sign: i64,
    pub position: String,
    pub avg_entry_price: String,
    pub position_value: String,
    pub unrealized_pnl: String,
    pub realized_pnl: String,
    pub liquidation_price: String,
    pub total_funding_paid_out: Option<String>,
    pub margin_mode: i64,
    pub allocated_margin: String,
}

/// The side of a position with size text `position` and sign `sign`.
///
/// A size that is zero, NaN, or that is not a numeral, is flat. Otherwise a
/// negative sign makes it short and a positive sign long; with a zero sign
/// the size's own sign decides.
pub open spec fn position_side(sign: i64, position: Seq<char>) -> Seq<char> {
    if !is_below_zero_numeral(position) && !is_above_zero_numeral(position) {
        "flat"@
    } else if sign < 0 {
        "short"@
    } else if sign > 0 {
        "long"@
    } else if is_below_zero_numeral(position) {
        "short"@
    } else {
        "long"@
    }
}

impl AccountPosition {
    /// `"long"`, `"short"` or `"flat"`: see [`position_side`].
    pub fn side_label(&self) -> (res: &'static str)
        ensures
            res@ == position_side(self.sign, self.position@),
    {
        let s = numeral_sign(self.position.as_str());
        if s == 0 {
            "flat"
        } else if self.sign < 0 {
            "short"
        } else if self.sign > 0 {
            "long"
        } else if s < 0 {
            "short"
        } else {
            "long"
        }
    }
}

/// The API keys registered for an account.
#[derive(Debug, Clone)]
pub struct AccountApiKeys {
    pub code: i64,
    pub message: Option<String>,
    pub api_keys: Vec<AccountApiKey>,
}

/// One registered API key.
#[derive(Debug, Clone)]
pub struct AccountApiKey {
    pub api_key_index: Option<i64>,
    pub public_key: Option<String>,
}

/// The answer to a change of an account's tier.
#[derive(Debug, Clone)]
pub struct ChangeAccountTierResponse {
    pub code: i64,
    pub message: Option<String>,
}

/// The next nonce the exchange expects for an API key.
#[derive(Debug, Clone)]
pub struct NextNonce {
    pub code: i64,
    pub message: Option<String>,
    pub nonce: Option<i64>,
}

} // verus!
