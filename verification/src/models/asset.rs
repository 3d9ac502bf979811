//! Asset balances.

use vstd::prelude::*;

verus! {

/// An asset balance of an account.
#[derive(Debug, Clone)]
pub struct Asset {
    pub symbol: String,
    pub asset_id: i64,
    pub balance: String,
    pub locked_balance: String,
}

/// The asset balances of an account.
#[derive(Debug, Clone)]
pub struct AssetDetails {
    pub code: i64,
    pub message: Option<String>,
    pub asset_details: Vec<Asset>,
}

} // verus!
