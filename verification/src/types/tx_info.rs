//! Signed L2 transaction payloads.

use vstd::prelude::*;

use super::order_info::OrderInfo;
use super::transact_opts::L2TxAttributes;
use crate::error::SdkError;

verus! {

/// Behaviour shared by every signed L2 transaction payload.
pub trait TxInfo {
    /// The transaction type code.
    fn tx_type(&self) -> u8;

    /// The hash that the signer reported for this transaction.
    fn tx_hash(&self) -> &str;

    /// Check the payload against the exchange's rules.
    fn validate(&self) -> Result<(), SdkError>;
}

#[derive(Debug, Clone)]
pub struct L2ChangePubKeyTxInfo {
    pub account_index: i64,
    pub api_key_index: u8,
    pub pub_key: Vec<u8>,
    pub l1_sig: String,
    pub expired_at: i64,
    pub nonce: i64,
    pub sig: Vec<u8>,
    pub l2_tx_attributes: L2TxAttributes,
    pub signed_hash: String,
}

#[derive(Debug, Clone)]
pub struct L2CreateSubAccountTxInfo {
    pub account_index: i64,
    pub api_key_index: u8,
    pub expired_at: i64,
    pub nonce: i64,
    pub sig: Vec<u8>,
    pub l2_tx_attributes: L2TxAttributes,
    pub signed_hash: String,
}

#[derive(Debug, Clone)]
pub struct L2CreateOrderTxInfo {
    pub account_index: i64,
    pub api_key_index: u8,
    pub order_info: OrderInfo,
    pub expired_at: i64,
    pub nonce: i64,
    pub sig: Vec<u8>,
    pub l2_tx_attributes: L2TxAttributes,
    pub signed_hash: String,
}

#[derive(Debug, Clone)]
pub struct L2CreateGroupedOrdersTxInfo {
    pub account_index: i64,
    pub api_key_index: u8,
    pub grouping_type: u8,
    pub orders: Vec<OrderInfo>,
    pub expired_at: i64,
    pub nonce: i64,
    pub sig: Vec<u8>,
    pub l2_tx_attributes: L2TxAttributes,
    pub signed_hash: String,
}

#[derive(Debug, Clone)]
pub struct L2CancelOrderTxInfo {
    pub account_index: i64,
    pub api_key_index: u8,
    pub market_index: i16,
    pub index: i64,
    pub expired_at: i64,
    pub nonce: i64,
    pub sig: Vec<u8>,
    pub l2_tx_attributes: L2TxAttributes,
    pub signed_hash: String,
}

#[derive(Debug, Clone)]
pub struct L2ModifyOrderTxInfo {
    pub account_index: i64,
    pub api_key_index: u8,
    pub market_index: i16,
    pub index: i64,
    pub base_amount: i64,
    pub price: u32,
    pub trigger_price: u32,
    pub expired_at: i64,
    pub nonce: i64,
    pub sig: Vec<u8>,
    pub l2_tx_attributes: L2TxAttributes,
    pub signed_hash: String,
}

#[derive(Debug, Clone)]
pub struct L2CancelAllOrdersTxInfo {
    pub account_index: i64,
    pub api_key_index: u8,
    pub time_in_force: u8,
    pub time: i64,
    pub expired_at: i64,
    pub nonce: i64,
    pub sig: Vec<u8>,
    pub l2_tx_attributes: L2TxAttributes,
    pub signed_hash: String,
}

#[derive(Debug, Clone)]
pub struct L2TransferTxInfo {
    pub from_account_index: i64,
    pub api_key_index: u8,
    pub to_account_index: i64,
    pub asset_index: i16,
    pub from_route_type: u8,
    pub to_route_type: u8,
    pub amount: i64,
    pub usdc_fee: i64,
    pub memo: [u8; 32],
    pub expired_at: i64,
    pub nonce: i64,
    pub sig: Vec<u8>,
    pub l1_sig: String,
    pub l2_tx_attributes: L2TxAttributes,
    pub signed_hash: String,
}

#[derive(Debug, Clone)]
pub struct L2WithdrawTxInfo {
    pub from_account_index: i64,
    pub api_key_index: u8,
    pub asset_index: i16,
    pub route_type: u8,
    pub amount: u64,
    pub expired_at: i64,
    pub nonce: i64,
    pub sig: Vec<u8>,
    pub l2_tx_attributes: L2TxAttributes,
    pub signed_hash: String,
}

#[derive(Debug, Clone)]
pub struct L2CreatePublicPoolTxInfo {
    pub account_index: i64,
    pub api_key_index: u8,
    pub operator_fee: i64,
    pub initial_total_shares: i64,
    pub min_operator_share_rate: u16,
    pub expired_at: i64,
    pub nonce: i64,
    pub sig: Vec<u8>,
    pub l2_tx_attributes: L2TxAttributes,
    pub signed_hash: String,
}

#[derive(Debug, Clone)]
pub struct L2UpdatePublicPoolTxInfo {
    pub account_index: i64,
    pub api_key_index: u8,
    pub public_pool_index: i64,
    pub status: u8,
    pub operator_fee: i64,
    pub min_operator_share_rate: u16,
    pub expired_at: i64,
    pub nonce: i64,
    pub sig: Vec<u8>,
    pub l2_tx_attributes: L2TxAttributes,
    pub signed_hash: String,
}

#[derive(Debug, Clone)]
pub struct L2MintSharesTxInfo {
    pub account_index: i64,
    pub api_key_index: u8,
    pub public_pool_index: i64,
    pub share_amount: i64,
    pub expired_at: i64,
    pub nonce: i64,
    pub sig: Vec<u8>,
    pub l2_tx_attributes: L2TxAttributes,
    pub signed_hash: String,
}

#[derive(Debug, Clone)]
pub struct L2BurnSharesTxInfo {
    pub account_index: i64,
    pub api_key_index: u8,
    pub public_pool_index: i64,
    pub share_amount: i64,
    pub expired_at: i64,
    pub nonce: i64,
    pub sig: Vec<u8>,
    pub l2_tx_attributes: L2TxAttributes,
    pub signed_hash: String,
}

#[derive(Debug, Clone)]
pub struct L2UpdateLeverageTxInfo {
    pub account_index: i64,
    pub api_key_index: u8,
    pub market_index: i16,
    pub initial_margin_fraction: u16,
    pub margin_mode: u8,
    pub expired_at: i64,
    pub nonce: i64,
    pub sig: Vec<u8>,
    pub l2_tx_attributes: L2TxAttributes,
    pub signed_hash: String,
}

#[derive(Debug, Clone)]
pub struct L2UpdateMarginTxInfo {
    pub account_index: i64,
    pub api_key_index: u8,
    pub market_index: i16,
    pub usdc_amount: i64,
    pub direction: u8,
    pub expired_at: i64,
    pub nonce: i64,
    pub sig: Vec<u8>,
    pub l2_tx_attributes: L2TxAttributes,
    pub signed_hash: String,
}

} // verus!
