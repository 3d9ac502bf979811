//! The error type shared by every fallible operation of the SDK.

use vstd::prelude::*;

use crate::numeric::{append_i64, int_text};

verus! {

/// Every error the SDK reports.
///
/// Validation errors carry no payload; errors that come from the transport
/// (HTTP, websocket, JSON decoding) carry the transport's message as text.
#[derive(Debug, Clone, PartialEq, Eq)]
pub enum SdkError {
    AssetIndexTooLow,
    AssetIndexTooHigh,
    RouteTypeInvalid,
    AccountIndexTooLow,
    AccountIndexTooHigh,
    NonceTooLow,
    NonceTooHigh,
    InvalidCancelAllTimeInForce,
    OrderReduceOnlyInvalid,
    OrderTriggerPriceInvalid,
    OrderExpiryInvalid,
    ExpiredAtInvalid,
    CancelAllTimeIsNotInRange,
    CancelAllTimeIsNotNil,
    PubKeyInvalid,
    ToAccountIndexTooLow,
    ToAccountIndexTooHigh,
    FromAccountIndexTooLow,
    FromAccountIndexTooHigh,
    ApiKeyIndexTooLow,
    ApiKeyIndexTooHigh,
    PublicPoolIndexTooLow,
    PublicPoolIndexTooHigh,
    InvalidPoolOperatorFee,
    InvalidPoolStatus,
    PoolInitialTotalSharesTooLow,
    PoolInitialTotalSharesTooHigh,
    PoolMinOperatorShareRateTooLow,
    PoolMinOperatorShareRateTooHigh,
    PoolMintShareAmountTooLow,
    PoolMintShareAmountTooHigh,
    PoolBurnShareAmountTooLow,
    PoolBurnShareAmountTooHigh,
    WithdrawalAmountTooLow,
    WithdrawalAmountTooHigh,
    TransferAmountTooLow,
    TransferAmountTooHigh,
    TransferFeeNegative,
    TransferFeeTooHigh,
    MarketIndexTooLow,
    MarketIndexTooHigh,
    MarketIndexMismatch,
    InvalidMarketIndex,
    InitialMarginFractionTooLow,
    InitialMarginFractionTooHigh,
    ClientOrderIndexTooLow,
    ClientOrderIndexTooHigh,
    ClientOrderIndexNotNil,
    OrderIndexTooLow,
    OrderIndexTooHigh,
    BaseAmountTooLow,
    BaseAmountTooHigh,
    BaseAmountsNotEqual,
    BaseAmountNotNil,
    PriceTooLow,
    PriceTooHigh,
    IsAskInvalid,
    OrderTypeInvalid,
    OrderTimeInForceInvalid,
    GroupingTypeInvalid,
    OrderGroupSizeInvalid,
    InvalidSignature,
    InvalidMarginMode,
    CancelModeInvalid,
    InvalidUpdateMarginDirection,
    IntegratorAccountIndexInvalidRange,
    IntegratorFeeInvalidRange,
    NonceSkipAttributeInvalid,
    IntegratorAccountIndexRequiredForNonZeroFees,
    Ffi(String),
    SignerNotLoaded,
    SignerLoadFailed(String),
    Http(String),
    Api { code: i64, message: String },
    RateLimited { code: i64, message: String },
    WebSocket(String),
    WebSocketNotConnected,
    Json(String),
    NoApiKeys,
    AmbiguousApiKey,
    Other(String),
}

/// The text an error reads as.
pub open spec fn error_text(e: SdkError) -> Seq<char> {
    match e {
        SdkError::AssetIndexTooLow => "AssetIndex should not be less than 1"@,
        SdkError::AssetIndexTooHigh => "AssetIndex should not be larger than 62"@,
        SdkError::RouteTypeInvalid => "RouteType is invalid"@,
        SdkError::AccountIndexTooLow => "AccountIndex should not be less than 0"@,
        SdkError::AccountIndexTooHigh => "AccountIndex should not be larger than 281474976710654"@,
        SdkError::NonceTooLow => "AccountNonce should not be less than 0"@,
        SdkError::NonceTooHigh => "AccountNonce should be less than 140737488355327"@,
        SdkError::InvalidCancelAllTimeInForce => "CancelAllTimeInForce is invalid"@,
        SdkError::OrderReduceOnlyInvalid => "ReduceOnly is invalid"@,
        SdkError::OrderTriggerPriceInvalid => "TriggerPrice is invalid"@,
        SdkError::OrderExpiryInvalid => "OrderExpiry is invalid"@,
        SdkError::ExpiredAtInvalid => "ExpiredAt is invalid"@,
        SdkError::CancelAllTimeIsNotInRange => "CancelAllTime should be larger than 0 and not larger than 9223372036854775807"@,
        SdkError::CancelAllTimeIsNotNil => "CancelAllTime should be nil"@,
        SdkError::PubKeyInvalid => "PubKey is invalid"@,
        SdkError::ToAccountIndexTooLow => "ToAccountIndex should not be less than 0"@,
        SdkError::ToAccountIndexTooHigh => "ToAccountIndex should not be larger than 281474976710654"@,
        SdkError::FromAccountIndexTooLow => "FromAccountIndex should not be less than 0"@,
        SdkError::FromAccountIndexTooHigh => "FromAccountIndex should not be larger than 281474976710654"@,
        SdkError::ApiKeyIndexTooLow => "ApiKeyIndex should not be less than 0"@,
        SdkError::ApiKeyIndexTooHigh => "ApiKeyIndex should not be larger than 254"@,
        SdkError::PublicPoolIndexTooLow => "PublicPoolIndex should not be less than 0"@,
        SdkError::PublicPoolIndexTooHigh => "PublicPoolIndex should not be larger than 281474976710654"@,
        SdkError::InvalidPoolOperatorFee => "PoolOperatorFee should be larger than 0 and not larger than 1000000"@,
        SdkError::InvalidPoolStatus => "PoolStatus should be either 0 or 1"@,
        SdkError::PoolInitialTotalSharesTooLow => "PoolInitialTotalShares should be larger than 1000000"@,
        SdkError::PoolInitialTotalSharesTooHigh => "PoolInitialTotalShares should not be larger than 1000000000000"@,
        SdkError::PoolMinOperatorShareRateTooLow => "PoolMinOperatorShareRate should be larger than 0"@,
        SdkError::PoolMinOperatorShareRateTooHigh => "PoolMinOperatorShareRate should not be larger than 10000"@,
        SdkError::PoolMintShareAmountTooLow => "PoolMintShareAmount should be larger than 1"@,
        SdkError::PoolMintShareAmountTooHigh => "PoolMintShareAmount should not be larger than 1152921504606846975"@,
        SdkError::PoolBurnShareAmountTooLow => "PoolBurnShareAmount should be larger than 1"@,
        SdkError::PoolBurnShareAmountTooHigh => "PoolBurnShareAmount should not be larger than 1152921504606846975"@,
        SdkError::WithdrawalAmountTooLow => "WithdrawalAmount should be larger than 1"@,
        SdkError::WithdrawalAmountTooHigh => "WithdrawalAmount should not be larger than 1152921504606846975"@,
        SdkError::TransferAmountTooLow => "TransferAmount should be larger than 1"@,
        SdkError::TransferAmountTooHigh => "TransferAmount should not be larger than 1152921504606846975"@,
        SdkError::TransferFeeNegative => "TransferFee should not be negative"@,
        SdkError::TransferFeeTooHigh => "TransferFee should not be larger than 1152921504606846975"@,
        SdkError::MarketIndexTooLow => "MarketIndex should not be less than 0"@,
        SdkError::MarketIndexTooHigh => "MarketIndex should not be larger than 4094"@,
        SdkError::MarketIndexMismatch => "MarketIndex should match the market index of the order"@,
        SdkError::InvalidMarketIndex => "MarketIndex is not valid"@,
        SdkError::InitialMarginFractionTooLow => "InitialMarginFraction should not be less than 0"@,
        SdkError::InitialMarginFractionTooHigh => "InitialMarginFraction should not be larger than 10000"@,
        SdkError::ClientOrderIndexTooLow => "ClientOrderIndex should not be less than 1"@,
        SdkError::ClientOrderIndexTooHigh => "ClientOrderIndex should not be larger than 281474976710655"@,
        SdkError::ClientOrderIndexNotNil => "ClientOrderIndex should be nil"@,
        SdkError::OrderIndexTooLow => "OrderIndex should not be less than 281474976710656"@,
        SdkError::OrderIndexTooHigh => "OrderIndex should not be larger than 1152921504606846975"@,
        SdkError::BaseAmountTooLow => "BaseAmount should not be less than 1"@,
        SdkError::BaseAmountTooHigh => "BaseAmount should not be larger than 281474976710655"@,
        SdkError::BaseAmountsNotEqual => "BaseAmounts should be equal"@,
        SdkError::BaseAmountNotNil => "BaseAmount should be nil"@,
        SdkError::PriceTooLow => "OrderPrice should not be less than 1"@,
        SdkError::PriceTooHigh => "OrderPrice should not be larger than 4294967295"@,
        SdkError::IsAskInvalid => "IsAsk should be 0 or 1"@,
        SdkError::OrderTypeInvalid => "OrderType is not valid"@,
        SdkError::OrderTimeInForceInvalid => "OrderTimeInForce is not valid"@,
        SdkError::GroupingTypeInvalid => "GroupingType is not valid"@,
        SdkError::OrderGroupSizeInvalid => "OrderGroupSize is not valid"@,
        SdkError::InvalidSignature => "TxSignature is invalid"@,
        SdkError::InvalidMarginMode => "MarginMode is not valid"@,
        SdkError::CancelModeInvalid => "CancelMode is not valid"@,
        SdkError::InvalidUpdateMarginDirection => "Margin movement direction is not valid"@,
        SdkError::IntegratorAccountIndexInvalidRange => "IntegratorAccountIndex should not be less than 0 or larger than 281474976710654"@,
        SdkError::IntegratorFeeInvalidRange => "IntegratorFee should not be larger than 1000000"@,
        SdkError::NonceSkipAttributeInvalid => "NonceSkip should be 1 when present"@,
        SdkError::IntegratorAccountIndexRequiredForNonZeroFees => "IntegratorAccountIndex is required when an integrator fee is not zero"@,
        SdkError::Ffi(s) => "FFI error: "@ + s@,
        SdkError::SignerNotLoaded => "Signer library not loaded"@,
        SdkError::SignerLoadFailed(s) => "Failed to load signer library. Configure `Config::with_signer_lib_path`, set `LIGHTER_SIGNER_LIB_PATH`, or place the signer next to your executable/current directory. Last error: "@ + s@,
        SdkError::Http(s) => "HTTP error: "@ + s@,
        SdkError::Api { code, message } => "API error (code "@ + int_text(code as int) + "): "@ + message@,
        SdkError::RateLimited { code, message } => "Rate limited (HTTP status "@ + int_text(code as int) + "): "@ + message@,
        SdkError::WebSocket(s) => "WebSocket error: "@ + s@,
        SdkError::WebSocketNotConnected => "WebSocket not connected"@,
        SdkError::Json(s) => "JSON error: "@ + s@,
        SdkError::NoApiKeys => "No API keys provided"@,
        SdkError::AmbiguousApiKey => "Ambiguous API key"@,
        SdkError::Other(s) => s@,
    }
}

/// `prefix`, the decimal text of `code`, `"): "` and `message`.
fn coded_text(prefix: &str, code: i64, message: &str) -> (res: String)
    ensures
        res@ == prefix@ + int_text(code as int) + "): "@ + message@,
{
    let mut out = String::from_str(prefix);
    append_i64(&mut out, code);
    out.append("): ");
    out.append(message);
    proof {
        assert(out@ =~= prefix@ + int_text(code as int) + "): "@ + message@);
    }
    out
}

impl SdkError {
    /// The text the error reads as; see [`error_text`].
    pub fn to_text(&self) -> (res: String)
        ensures
            res@ == error_text(*self),
    {
        match self {
            SdkError::AssetIndexTooLow => String::from_str("AssetIndex should not be less than 1"),
            SdkError::AssetIndexTooHigh => String::from_str("AssetIndex should not be larger than 62"),
            SdkError::RouteTypeInvalid => String::from_str("RouteType is invalid"),
            SdkError::AccountIndexTooLow => String::from_str("AccountIndex should not be less than 0"),
            SdkError::AccountIndexTooHigh => String::from_str("AccountIndex should not be larger than 281474976710654"),
            SdkError::NonceTooLow => String::from_str("AccountNonce should not be less than 0"),
            SdkError::NonceTooHigh => String::from_str("AccountNonce should be less than 140737488355327"),
            SdkError::InvalidCancelAllTimeInForce => String::from_str("CancelAllTimeInForce is invalid"),
            SdkError::OrderReduceOnlyInvalid => String::from_str("ReduceOnly is invalid"),
            SdkError::OrderTriggerPriceInvalid => String::from_str("TriggerPrice is invalid"),
            SdkError::OrderExpiryInvalid => String::from_str("OrderExpiry is invalid"),
            SdkError::ExpiredAtInvalid => String::from_str("ExpiredAt is invalid"),
            SdkError::CancelAllTimeIsNotInRange => String::from_str("CancelAllTime should be larger than 0 and not larger than 9223372036854775807"),
            SdkError::CancelAllTimeIsNotNil => String::from_str("CancelAllTime should be nil"),
            SdkError::PubKeyInvalid => String::from_str("PubKey is invalid"),
            SdkError::ToAccountIndexTooLow => String::from_str("ToAccountIndex should not be less than 0"),
            SdkError::ToAccountIndexTooHigh => String::from_str("ToAccountIndex should not be larger than 281474976710654"),
            SdkError::FromAccountIndexTooLow => String::from_str("FromAccountIndex should not be less than 0"),
            SdkError::FromAccountIndexTooHigh => String::from_str("FromAccountIndex should not be larger than 281474976710654"),
            SdkError::ApiKeyIndexTooLow => String::from_str("ApiKeyIndex should not be less than 0"),
            SdkError::ApiKeyIndexTooHigh => String::from_str("ApiKeyIndex should not be larger than 254"),
            SdkError::PublicPoolIndexTooLow => String::from_str("PublicPoolIndex should not be less than 0"),
            SdkError::PublicPoolIndexTooHigh => String::from_str("PublicPoolIndex should not be larger than 281474976710654"),
            SdkError::InvalidPoolOperatorFee => String::from_str("PoolOperatorFee should be larger than 0 and not larger than 1000000"),
            SdkError::InvalidPoolStatus => String::from_str("PoolStatus should be either 0 or 1"),
            SdkError::PoolInitialTotalSharesTooLow => String::from_str("PoolInitialTotalShares should be larger than 1000000"),
            SdkError::PoolInitialTotalSharesTooHigh => String::from_str("PoolInitialTotalShares should not be larger than 1000000000000"),
            SdkError::PoolMinOperatorShareRateTooLow => String::from_str("PoolMinOperatorShareRate should be larger than 0"),
            SdkError::PoolMinOperatorShareRateTooHigh => String::from_str("PoolMinOperatorShareRate should not be larger than 10000"),
            SdkError::PoolMintShareAmountTooLow => String::from_str("PoolMintShareAmount should be larger than 1"),
            SdkError::PoolMintShareAmountTooHigh => String::from_str("PoolMintShareAmount should not be larger than 1152921504606846975"),
            SdkError::PoolBurnShareAmountTooLow => String::from_str("PoolBurnShareAmount should be larger than 1"),
            SdkError::PoolBurnShareAmountTooHigh => String::from_str("PoolBurnShareAmount should not be larger than 1152921504606846975"),
            SdkError::WithdrawalAmountTooLow => String::from_str("WithdrawalAmount should be larger than 1"),
            SdkError::WithdrawalAmountTooHigh => String::from_str("WithdrawalAmount should not be larger than 1152921504606846975"),
            SdkError::TransferAmountTooLow => String::from_str("TransferAmount should be larger than 1"),
            SdkError::TransferAmountTooHigh => String::from_str("TransferAmount should not be larger than 1152921504606846975"),
            SdkError::TransferFeeNegative => String::from_str("TransferFee should not be negative"),
            SdkError::TransferFeeTooHigh => String::from_str("TransferFee should not be larger than 1152921504606846975"),
            SdkError::MarketIndexTooLow => String::from_str("MarketIndex should not be less than 0"),
            SdkError::MarketIndexTooHigh => String::from_str("MarketIndex should not be larger than 4094"),
            SdkError::MarketIndexMismatch => String::from_str("MarketIndex should match the market index of the order"),
            SdkError::InvalidMarketIndex => String::from_str("MarketIndex is not valid"),
            SdkError::InitialMarginFractionTooLow => String::from_str("InitialMarginFraction should not be less than 0"),
            SdkError::InitialMarginFractionTooHigh => String::from_str("InitialMarginFraction should not be larger than 10000"),
            SdkError::ClientOrderIndexTooLow => String::from_str("ClientOrderIndex should not be less than 1"),
            SdkError::ClientOrderIndexTooHigh => String::from_str("ClientOrderIndex should not be larger than 281474976710655"),
            SdkError::ClientOrderIndexNotNil => String::from_str("ClientOrderIndex should be nil"),
            SdkError::OrderIndexTooLow => String::from_str("OrderIndex should not be less than 281474976710656"),
            SdkError::OrderIndexTooHigh => String::from_str("OrderIndex should not be larger than 1152921504606846975"),
            SdkError::BaseAmountTooLow => String::from_str("BaseAmount should not be less than 1"),
            SdkError::BaseAmountTooHigh => String::from_str("BaseAmount should not be larger than 281474976710655"),
            SdkError::BaseAmountsNotEqual => String::from_str("BaseAmounts should be equal"),
            SdkError::BaseAmountNotNil => String::from_str("BaseAmount should be nil"),
            SdkError::PriceTooLow => String::from_str("OrderPrice should not be less than 1"),
            SdkError::PriceTooHigh => String::from_str("OrderPrice should not be larger than 4294967295"),
            SdkError::IsAskInvalid => String::from_str("IsAsk should be 0 or 1"),
            SdkError::OrderTypeInvalid => String::from_str("OrderType is not valid"),
            SdkError::OrderTimeInForceInvalid => String::from_str("OrderTimeInForce is not valid"),
            SdkError::GroupingTypeInvalid => String::from_str("GroupingType is not valid"),
            SdkError::OrderGroupSizeInvalid => String::from_str("OrderGroupSize is not valid"),
            SdkError::InvalidSignature => String::from_str("TxSignature is invalid"),
            SdkError::InvalidMarginMode => String::from_str("MarginMode is not valid"),
            SdkError::CancelModeInvalid => String::from_str("CancelMode is not valid"),
            SdkError::InvalidUpdateMarginDirection => String::from_str("Margin movement direction is not valid"),
            SdkError::IntegratorAccountIndexInvalidRange => String::from_str("IntegratorAccountIndex should not be less than 0 or larger than 281474976710654"),
            SdkError::IntegratorFeeInvalidRange => String::from_str("IntegratorFee should not be larger than 1000000"),
            SdkError::NonceSkipAttributeInvalid => String::from_str("NonceSkip should be 1 when present"),
            SdkError::IntegratorAccountIndexRequiredForNonZeroFees => String::from_str("IntegratorAccountIndex is required when an integrator fee is not zero"),
            SdkError::Ffi(s) => String::from_str("FFI error: ").concat(s.as_str()),
            SdkError::SignerNotLoaded => String::from_str("Signer library not loaded"),
            SdkError::SignerLoadFailed(s) => String::from_str("Failed to load signer library. Configure `Config::with_signer_lib_path`, set `LIGHTER_SIGNER_LIB_PATH`, or place the signer next to your executable/current directory. Last error: ").concat(s.as_str()),
            SdkError::Http(s) => String::from_str("HTTP error: ").concat(s.as_str()),
            SdkError::Api { code, message } => coded_text("API error (code ", *code, message.as_str()),
            SdkError::RateLimited { code, message } => coded_text("Rate limited (HTTP status ", *code, message.as_str()),
            SdkError::WebSocket(s) => String::from_str("WebSocket error: ").concat(s.as_str()),
            SdkError::WebSocketNotConnected => String::from_str("WebSocket not connected"),
            SdkError::Json(s) => String::from_str("JSON error: ").concat(s.as_str()),
            SdkError::NoApiKeys => String::from_str("No API keys provided"),
            SdkError::AmbiguousApiKey => String::from_str("Ambiguous API key"),
            SdkError::Other(s) => s.clone(),
        }
    }
}

} // verus!
