//! Conditional, price-triggered asset swaps: the condition state machine, the
//! request validator, constant-product quote math, oracle price selection and
//! the engine that ties them together.

mod error;
mod util;
pub mod swap_condition;
pub mod dex_integration;
pub mod price_oracle;
pub mod contract;

pub use error::SwapError;
pub use swap_condition::{
    CreateSwapRequest, SwapCondition, SwapConditionManager, SwapConditionType, SwapExecution, SwapStatus,
    SwapValidationError, MAX_CONDITION_LIFETIME, MAX_PERCENTAGE_CHANGE, MAX_SLIPPAGE_BASIS_POINTS,
    MAX_SWAP_AMOUNT, MIN_CONDITION_LIFETIME, MIN_PERCENTAGE_CHANGE, MIN_SLIPPAGE_BASIS_POINTS, MIN_SWAP_AMOUNT,
};
pub use dex_integration::{
    DexConfig, DexConfigManager, PoolInfo, StellarDexIntegration, SwapParams, SwapPath, SwapQuote, SwapResult,
    DEFAULT_FEE_TIER, DEFAULT_MAX_SLIPPAGE, DEFAULT_MIN_LIQUIDITY, MAX_FEE_TIER, QUOTE_VALIDITY_DURATION,
};
pub use price_oracle::{
    OracleConfig, OracleConfigManager, PriceData, PriceOracleClient, PriceQueryResult, DEFAULT_MAX_PRICE_AGE,
    DEFAULT_MIN_CONFIDENCE, MAX_PRICE_AGE_LIMIT, MIN_CONFIDENCE_LIMIT, PRICE_SCALING_FACTOR,
};
pub use contract::{ContractConfig, GlobalStats, SmartSwap};
