use vstd::prelude::*;
use crate::util::symbol_is;

verus! {

/// Every failure the library reports, one variant per symbolic reason.
#[derive(Clone, Copy, Debug, PartialEq, Eq, Structural)]
pub enum SwapError {
    // Condition state
    ConditionExpired,
    AlreadyExecuted,
    ExecutionLimitReached,
    ConditionCancelled,
    ConditionFailed,
    // Request validation
    AmountTooSmall,
    AmountTooLarge,
    SlippageTooLow,
    SlippageTooHigh,
    LifetimeTooShort,
    LifetimeTooLong,
    SameAssets,
    InvalidPercentage,
    InvalidTargetPrice,
    InvalidPriceThreshold,
    // DEX
    IdenticalTokens,
    ZeroAmount,
    DeadlineExceeded,
    InvalidMinOutput,
    NoPathFound,
    InsufficientLiquidity,
    CalculationError,
    SlippageExceeded,
    SwapFailed,
    FeeTooHigh,
    InvalidMinLiquidity,
    SlippageToleranceTooHigh,
    // Oracle
    UnsupportedAsset,
    NoHistoricalData,
    InvalidPriceData,
    MissingPriceData,
    PriceQueryFailed,
    FailedToGetPrices,
    ZeroDestinationPrice,
    RateOverflow,
    PriceTooOld,
    InsufficientConfidence,
    ZeroPrice,
    ZeroExchangeRate,
    ZeroLiquidity,
    FailedToGetCurrentPrice,
    FailedToGetHistoricalPrice,
    InvalidHistoricalPrice,
    InvalidMaxPriceAge,
    InvalidMinConfidence,
    // Contract surface
    AlreadyInitialized,
    NotInitialized,
    ContractPaused,
    AmountBelowMinimum,
    PriceUnavailable,
    NoConditions,
    ConditionNotFound,
    NotOwner,
    CannotCancel,
    Unauthorized,
    ConditionLimitExceeded,
}

impl SwapError {
    /// The symbolic name of the reason, as reported to callers.
    pub open spec fn spec_symbol(self) -> Seq<char> {
        match self {
            SwapError::ConditionExpired => "condition_expired"@,
            SwapError::AlreadyExecuted => "already_executed"@,
            SwapError::ExecutionLimitReached => "execution_limit_reached"@,
            SwapError::ConditionCancelled => "condition_cancelled"@,
            SwapError::ConditionFailed => "condition_failed"@,
            SwapError::AmountTooSmall => "amount_too_small"@,
            SwapError::AmountTooLarge => "amount_too_large"@,
            SwapError::SlippageTooLow => "slippage_too_low"@,
            SwapError::SlippageTooHigh => "slippage_too_high"@,
            SwapError::LifetimeTooShort => "lifetime_too_short"@,
            SwapError::LifetimeTooLong => "lifetime_too_long"@,
            SwapError::SameAssets => "same_assets"@,
            SwapError::InvalidPercentage => "invalid_percentage"@,
            SwapError::InvalidTargetPrice => "invalid_target_price"@,
            SwapError::InvalidPriceThreshold => "invalid_price_threshold"@,
            SwapError::IdenticalTokens => "identical_tokens"@,
            SwapError::ZeroAmount => "zero_amount"@,
            SwapError::DeadlineExceeded => "deadline_exceeded"@,
            SwapError::InvalidMinOutput => "invalid_min_output"@,
            SwapError::NoPathFound => "no_path_found"@,
            SwapError::InsufficientLiquidity => "insufficient_liquidity"@,
            SwapError::CalculationError => "calculation_error"@,
            SwapError::SlippageExceeded => "slippage_exceeded"@,
            SwapError::SwapFailed => "swap_failed"@,
            SwapError::FeeTooHigh => "fee_too_high"@,
            SwapError::InvalidMinLiquidity => "invalid_min_liquidity"@,
            SwapError::SlippageToleranceTooHigh => "slippage_tolerance_too_high"@,
            SwapError::UnsupportedAsset => "unsupported_asset"@,
            SwapError::NoHistoricalData => "no_historical_data"@,
            SwapError::InvalidPriceData => "invalid_price_data"@,
            SwapError::MissingPriceData => "missing_price_data"@,
            SwapError::PriceQueryFailed => "price_query_failed"@,
            SwapError::FailedToGetPrices => "failed_to_get_prices"@,
            SwapError::ZeroDestinationPrice => "zero_destination_price"@,
            SwapError::RateOverflow => "rate_overflow"@,
            SwapError::PriceTooOld => "price_too_old"@,
            SwapError::InsufficientConfidence => "insufficient_confidence"@,
            SwapError::ZeroPrice => "zero_price"@,
            SwapError::ZeroExchangeRate => "zero_exchange_rate"@,
            SwapError::ZeroLiquidity => "zero_liquidity"@,
            SwapError::FailedToGetCurrentPrice => "failed_to_get_current_price"@,
            SwapError::FailedToGetHistoricalPrice => "failed_to_get_historical_price"@,
            SwapError::InvalidHistoricalPrice => "invalid_historical_price"@,
            SwapError::InvalidMaxPriceAge => "invalid_max_price_age"@,
            SwapError::InvalidMinConfidence => "invalid_min_confidence"@,
            SwapError::AlreadyInitialized => "already_initialized"@,
            SwapError::NotInitialized => "not_initialized"@,
            SwapError::ContractPaused => "contract_paused"@,
            SwapError::AmountBelowMinimum => "amount_below_minimum"@,
            SwapError::PriceUnavailable => "price_unavailable"@,
            SwapError::NoConditions => "no_conditions"@,
            SwapError::ConditionNotFound => "condition_not_found"@,
            SwapError::NotOwner => "not_owner"@,
            SwapError::CannotCancel => "cannot_cancel"@,
            SwapError::Unauthorized => "unauthorized"@,
            SwapError::ConditionLimitExceeded => "condition_limit_exceeded"@,
        }
    }

    /// The symbolic name of the reason.
    pub fn symbol(&self) -> (r: String)
        ensures
            r@ == self.spec_symbol(),
    {
        let s: &str = match self {
            SwapError::ConditionExpired => "condition_expired",
            SwapError::AlreadyExecuted => "already_executed",
            SwapError::ExecutionLimitReached => "execution_limit_reached",
            SwapError::ConditionCancelled => "condition_cancelled",
            SwapError::ConditionFailed => "condition_failed",
            SwapError::AmountTooSmall => "amount_too_small",
            SwapError::AmountTooLarge => "amount_too_large",
            SwapError::SlippageTooLow => "slippage_too_low",
            SwapError::SlippageTooHigh => "slippage_too_high",
            SwapError::LifetimeTooShort => "lifetime_too_short",
            SwapError::LifetimeTooLong => "lifetime_too_long",
            SwapError::SameAssets => "same_assets",
            SwapError::InvalidPercentage => "invalid_percentage",
            SwapError::InvalidTargetPrice => "invalid_target_price",
            SwapError::InvalidPriceThreshold => "invalid_price_threshold",
            SwapError::IdenticalTokens => "identical_tokens",
            SwapError::ZeroAmount => "zero_amount",
            SwapError::DeadlineExceeded => "deadline_exceeded",
            SwapError::InvalidMinOutput => "invalid_min_output",
            SwapError::NoPathFound => "no_path_found",
            SwapError::InsufficientLiquidity => "insufficient_liquidity",
            SwapError::CalculationError => "calculation_error",
            SwapError::SlippageExceeded => "slippage_exceeded",
            SwapError::SwapFailed => "swap_failed",
            SwapError::FeeTooHigh => "fee_too_high",
            SwapError::InvalidMinLiquidity => "invalid_min_liquidity",
            SwapError::SlippageToleranceTooHigh => "slippage_tolerance_too_high",
            SwapError::UnsupportedAsset => "unsupported_asset",
            SwapError::NoHistoricalData => "no_historical_data",
            SwapError::InvalidPriceData => "invalid_price_data",
            SwapError::MissingPriceData => "missing_price_data",
            SwapError::PriceQueryFailed => "price_query_failed",
            SwapError::FailedToGetPrices => "failed_to_get_prices",
            SwapError::ZeroDestinationPrice => "zero_destination_price",
            SwapError::RateOverflow => "rate_overflow",
            SwapError::PriceTooOld => "price_too_old",
            SwapError::InsufficientConfidence => "insufficient_confidence",
            SwapError::ZeroPrice => "zero_price",
            SwapError::ZeroExchangeRate => "zero_exchange_rate",
            SwapError::ZeroLiquidity => "zero_liquidity",
            SwapError::FailedToGetCurrentPrice => "failed_to_get_current_price",
            SwapError::FailedToGetHistoricalPrice => "failed_to_get_historical_price",
            SwapError::InvalidHistoricalPrice => "invalid_historical_price",
            SwapError::InvalidMaxPriceAge => "invalid_max_price_age",
            SwapError::InvalidMinConfidence => "invalid_min_confidence",
            SwapError::AlreadyInitialized => "already_initialized",
            SwapError::NotInitialized => "not_initialized",
            SwapError::ContractPaused => "contract_paused",
            SwapError::AmountBelowMinimum => "amount_below_minimum",
            SwapError::PriceUnavailable => "price_unavailable",
            SwapError::NoConditions => "no_conditions",
            SwapError::ConditionNotFound => "condition_not_found",
            SwapError::NotOwner => "not_owner",
            SwapError::CannotCancel => "cannot_cancel",
            SwapError::Unauthorized => "unauthorized",
            SwapError::ConditionLimitExceeded => "condition_limit_exceeded",
        };
        String::from_str(s)
    }

    /// The reason named by the symbolic name `s`, if any.
    pub fn from_symbol(s: &String) -> (r: Option<SwapError>)
        ensures
            r matches Some(e) ==> e.spec_symbol() == s@,
            (exists|e: SwapError| e.spec_symbol() == s@) ==> r is Some,
    {
        if symbol_is(s, "condition_expired") {
            Some(SwapError::ConditionExpired)
        } else if symbol_is(s, "already_executed") {
            Some(SwapError::AlreadyExecuted)
        } else if symbol_is(s, "execution_limit_reached") {
            Some(SwapError::ExecutionLimitReached)
        } else if symbol_is(s, "condition_cancelled") {
            Some(SwapError::ConditionCancelled)
        } else if symbol_is(s, "condition_failed") {
            Some(SwapError::ConditionFailed)
        } else if symbol_is(s, "amount_too_small") {
            Some(SwapError::AmountTooSmall)
        } else if symbol_is(s, "amount_too_large") {
            Some(SwapError::AmountTooLarge)
        } else if symbol_is(s, "slippage_too_low") {
            Some(SwapError::SlippageTooLow)
        } else if symbol_is(s, "slippage_too_high") {
            Some(SwapError::SlippageTooHigh)
        } else if symbol_is(s, "lifetime_too_short") {
            Some(SwapError::LifetimeTooShort)
        } else if symbol_is(s, "lifetime_too_long") {
            Some(SwapError::LifetimeTooLong)
        } else if symbol_is(s, "same_assets") {
            Some(SwapError::SameAssets)
        } else if symbol_is(s, "invalid_percentage") {
            Some(SwapError::InvalidPercentage)
        } else if symbol_is(s, "invalid_target_price") {
            Some(SwapError::InvalidTargetPrice)
        } else if symbol_is(s, "invalid_price_threshold") {
            Some(SwapError::InvalidPriceThreshold)
        } else if symbol_is(s, "identical_tokens") {
            Some(SwapError::IdenticalTokens)
        } else if symbol_is(s, "zero_amount") {
            Some(SwapError::ZeroAmount)
        } else if symbol_is(s, "deadline_exceeded") {
            Some(SwapError::DeadlineExceeded)
        } else if symbol_is(s, "invalid_min_output") {
            Some(SwapError::InvalidMinOutput)
        } else if symbol_is(s, "no_path_found") {
            Some(SwapError::NoPathFound)
        } else if symbol_is(s, "insufficient_liquidity") {
            Some(SwapError::InsufficientLiquidity)
        } else if symbol_is(s, "calculation_error") {
            Some(SwapError::CalculationError)
        } else if symbol_is(s, "slippage_exceeded") {
            Some(SwapError::SlippageExceeded)
        } else if symbol_is(s, "swap_failed") {
            Some(SwapError::SwapFailed)
        } else if symbol_is(s, "fee_too_high") {
            Some(SwapError::FeeTooHigh)
        } else if symbol_is(s, "invalid_min_liquidity") {
            Some(SwapError::InvalidMinLiquidity)
        } else if symbol_is(s, "slippage_tolerance_too_high") {
            Some(SwapError::SlippageToleranceTooHigh)
        } else if symbol_is(s, "unsupported_asset") {
            Some(SwapError::UnsupportedAsset)
        } else if symbol_is(s, "no_historical_data") {
            Some(SwapError::NoHistoricalData)
        } else if symbol_is(s, "invalid_price_data") {
            Some(SwapError::InvalidPriceData)
        } else if symbol_is(s, "missing_price_data") {
            Some(SwapError::MissingPriceData)
        } else if symbol_is(s, "price_query_failed") {
            Some(SwapError::PriceQueryFailed)
        } else if symbol_is(s, "failed_to_get_prices") {
            Some(SwapError::FailedToGetPrices)
        } else if symbol_is(s, "zero_destination_price") {
            Some(SwapError::ZeroDestinationPrice)
        } else if symbol_is(s, "rate_overflow") {
            Some(SwapError::RateOverflow)
        } else if symbol_is(s, "price_too_old") {
            Some(SwapError::PriceTooOld)
        } else if symbol_is(s, "insufficient_confidence") {
            Some(SwapError::InsufficientConfidence)
        } else if symbol_is(s, "zero_price") {
            Some(SwapError::ZeroPrice)
        } else if symbol_is(s, "zero_exchange_rate") {
            Some(SwapError::ZeroExchangeRate)
        } else if symbol_is(s, "zero_liquidity") {
            Some(SwapError::ZeroLiquidity)
        } else if symbol_is(s, "failed_to_get_current_price") {
            Some(SwapError::FailedToGetCurrentPrice)
        } else if symbol_is(s, "failed_to_get_historical_price") {
            Some(SwapError::FailedToGetHistoricalPrice)
        } else if symbol_is(s, "invalid_historical_price") {
            Some(SwapError::InvalidHistoricalPrice)
        } else if symbol_is(s, "invalid_max_price_age") {
            Some(SwapError::InvalidMaxPriceAge)
        } else if symbol_is(s, "invalid_min_confidence") {
            Some(SwapError::InvalidMinConfidence)
        } else if symbol_is(s, "already_initialized") {
            Some(SwapError::AlreadyInitialized)
        } else if symbol_is(s, "not_initialized") {
            Some(SwapError::NotInitialized)
        } else if symbol_is(s, "contract_paused") {
            Some(SwapError::ContractPaused)
        } else if symbol_is(s, "amount_below_minimum") {
            Some(SwapError::AmountBelowMinimum)
        } else if symbol_is(s, "price_unavailable") {
            Some(SwapError::PriceUnavailable)
        } else if symbol_is(s, "no_conditions") {
            Some(SwapError::NoConditions)
        } else if symbol_is(s, "condition_not_found") {
            Some(SwapError::ConditionNotFound)
        } else if symbol_is(s, "not_owner") {
            Some(SwapError::NotOwner)
        } else if symbol_is(s, "cannot_cancel") {
            Some(SwapError::CannotCancel)
        } else if symbol_is(s, "unauthorized") {
            Some(SwapError::Unauthorized)
        } else if symbol_is(s, "condition_limit_exceeded") {
            Some(SwapError::ConditionLimitExceeded)
        } else {
            None
        }
    }
}

} // verus!
