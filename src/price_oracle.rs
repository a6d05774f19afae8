use vstd::prelude::*;
use crate::error::SwapError;
use crate::util::{sat_sub, symbol_is};

verus! {

/// Settings of the price oracle and of the quality check on its data.
#[derive(Debug, PartialEq, Eq)]
pub struct OracleConfig {
    pub oracle_contract_address: String,
    /// Maximum age of price data in seconds.
    pub max_price_age: u64,
    pub fallback_enabled: bool,
    pub min_confidence: u32,
}

impl Clone for OracleConfig {
    fn clone(&self) -> (r: Self)
        ensures
            r == *self,
    {
        OracleConfig {
            oracle_contract_address: self.oracle_contract_address.clone(),
            max_price_age: self.max_price_age,
            fallback_enabled: self.fallback_enabled,
            min_confidence: self.min_confidence,
        }
    }
}

/// One price observation: 7 implied decimals, confidence 0 to 100.
#[derive(Debug, PartialEq, Eq)]
pub struct PriceData {
    pub asset_symbol: String,
    pub price: u64,
    pub timestamp: u64,
    pub confidence: u32,
    pub source_count: u32,
}

impl Clone for PriceData {
    fn clone(&self) -> (r: Self)
        ensures
            r == *self,
    {
        PriceData {
            asset_symbol: self.asset_symbol.clone(),
            price: self.price,
            timestamp: self.timestamp,
            confidence: self.confidence,
            source_count: self.source_count,
        }
    }
}

/// The outcome of a price query: data on success, the reason otherwise.
#[derive(Debug, PartialEq, Eq)]
pub struct PriceQueryResult {
    pub success: bool,
    pub price_data: Option<PriceData>,
    pub error_message: Option<SwapError>,
}

pub const DEFAULT_MAX_PRICE_AGE: u64 = 300;
pub const DEFAULT_MIN_CONFIDENCE: u32 = 70;
pub const MAX_PRICE_AGE_LIMIT: u64 = 3600;
pub const MIN_CONFIDENCE_LIMIT: u32 = 50;
/// Seven decimal places.
pub const PRICE_SCALING_FACTOR: u64 = 10_000_000;
pub const PRIMARY_CONFIDENCE: u32 = 85;
pub const PRIMARY_SOURCE_COUNT: u32 = 5;
pub const HISTORICAL_CONFIDENCE: u32 = 70;
pub const HISTORICAL_SOURCE_COUNT: u32 = 3;
pub const HISTORICAL_AGE: u64 = 300;
pub const MAX_PRICE_IMPACT: u32 = 5000;

/// Price the stand-in primary source reports for `asset`.
pub open spec fn spec_oracle_price(asset: Seq<char>) -> Option<u64> {
    if asset == "XLM"@ {
        Some(120000)
    } else if asset == "USDC"@ {
        Some(1000000)
    } else if asset == "BTC"@ {
        Some(45000000000)
    } else if asset == "ETH"@ {
        Some(3000000000)
    } else {
        None
    }
}

/// Price the stand-in historical source reports for `asset`.
pub open spec fn spec_historical_price(asset: Seq<char>) -> Option<u64> {
    if asset == "XLM"@ {
        Some(118000)
    } else if asset == "USDC"@ {
        Some(999500)
    } else if asset == "BTC"@ {
        Some(44500000000)
    } else if asset == "ETH"@ {
        Some(2980000000)
    } else {
        None
    }
}

pub open spec fn spec_primary_query(asset: String, now: u64) -> Result<PriceData, SwapError> {
    match spec_oracle_price(asset@) {
        Some(price) => Ok(
            PriceData {
                asset_symbol: asset,
                price,
                timestamp: now,
                confidence: PRIMARY_CONFIDENCE,
                source_count: PRIMARY_SOURCE_COUNT,
            },
        ),
        None => Err(SwapError::UnsupportedAsset),
    }
}

pub open spec fn spec_historical_query(asset: String, now: u64) -> Result<PriceData, SwapError> {
    match spec_historical_price(asset@) {
        Some(price) => Ok(
            PriceData {
                asset_symbol: asset,
                price,
                timestamp: sat_sub(now as int, HISTORICAL_AGE as int) as u64,
                confidence: HISTORICAL_CONFIDENCE,
                source_count: HISTORICAL_SOURCE_COUNT,
            },
        ),
        None => Err(SwapError::NoHistoricalData),
    }
}

/// The check made before any execution: stale, unconfident and zero prices are rejected.
pub open spec fn spec_validate_price_for_swap(d: PriceData, config: OracleConfig, now: u64) -> Result<(), SwapError> {
    if sat_sub(now as int, d.timestamp as int) > config.max_price_age {
        Err(SwapError::PriceTooOld)
    } else if d.confidence < config.min_confidence {
        Err(SwapError::InsufficientConfidence)
    } else if d.price == 0 {
        Err(SwapError::ZeroPrice)
    } else {
        Ok(())
    }
}

/// Fresh enough, confident enough, nonzero.
pub open spec fn spec_price_usable(d: PriceData, config: OracleConfig, now: u64) -> bool {
    &&& sat_sub(now as int, d.timestamp as int) <= config.max_price_age
    &&& d.confidence >= config.min_confidence
    &&& d.price != 0
}

/// The source's own quality check: usable, and from at least two sources.
pub open spec fn spec_price_data_valid(d: PriceData, config: OracleConfig, now: u64) -> bool {
    spec_price_usable(d, config, now) && d.source_count >= 2
}

pub open spec fn query_success(d: PriceData) -> PriceQueryResult {
    PriceQueryResult { success: true, price_data: Some(d), error_message: None }
}

pub open spec fn query_failure(e: SwapError) -> PriceQueryResult {
    PriceQueryResult { success: false, price_data: None, error_message: Some(e) }
}

pub open spec fn spec_from_result(r: Result<PriceData, SwapError>) -> PriceQueryResult {
    match r {
        Ok(d) => query_success(d),
        Err(e) => query_failure(e),
    }
}

/// The primary answer when it passes the quality check; otherwise the fallback answer
/// when fallback is enabled, else the failure.
pub open spec fn spec_resolve(
    config: OracleConfig,
    now: u64,
    primary: Result<PriceData, SwapError>,
    fallback: Result<PriceData, SwapError>,
) -> PriceQueryResult {
    match primary {
        Ok(d) => if spec_price_data_valid(d, config, now) {
            query_success(d)
        } else if config.fallback_enabled {
            spec_from_result(fallback)
        } else {
            query_failure(SwapError::InvalidPriceData)
        },
        Err(e) => if config.fallback_enabled {
            spec_from_result(fallback)
        } else {
            query_failure(e)
        },
    }
}

/// What `get_price` answers for `asset` at `now`.
pub open spec fn spec_get_price(config: OracleConfig, asset: String, now: u64) -> PriceQueryResult {
    spec_resolve(config, now, spec_primary_query(asset, now), spec_historical_query(asset, now))
}

/// The reason a failed query reports.
pub open spec fn spec_query_error(q: PriceQueryResult) -> SwapError {
    match q.error_message {
        Some(e) => e,
        None => SwapError::PriceQueryFailed,
    }
}

/// The price a successful query carries.
pub open spec fn spec_query_price(q: PriceQueryResult) -> u64 {
    match q.price_data {
        Some(d) => d.price,
        None => 0,
    }
}

/// `from`'s price in units of `to`, with 7 decimals.
pub open spec fn spec_exchange_rate(config: OracleConfig, from: String, to: String, now: u64) -> Result<u64, SwapError> {
    let f = spec_get_price(config, from, now);
    let t = spec_get_price(config, to, now);
    if !f.success || !t.success {
        Err(SwapError::FailedToGetPrices)
    } else if spec_query_price(t) == 0 {
        Err(SwapError::ZeroDestinationPrice)
    } else {
        let rate = spec_query_price(f) * PRICE_SCALING_FACTOR / spec_query_price(t) as int;
        if rate > u64::MAX as int {
            Err(SwapError::RateOverflow)
        } else {
            Ok(rate as u64)
        }
    }
}

/// The client of the price oracle.
pub struct PriceOracleClient;

impl PriceOracleClient {
    pub fn new() -> (r: Self) {
        PriceOracleClient
    }

    /// Chooses between a primary and a fallback answer as `spec_resolve` says.
    pub fn resolve_price(
        oracle_config: &OracleConfig,
        now: u64,
        primary: Result<PriceData, SwapError>,
        fallback: Result<PriceData, SwapError>,
    ) -> (r: PriceQueryResult)
        ensures
            r == spec_resolve(*oracle_config, now, primary, fallback),
    {
        match primary {
            Ok(price_data) => {
                if Self::is_price_data_valid(&price_data, oracle_config, now) {
                    PriceQueryResult { success: true, price_data: Some(price_data), error_message: None }
                } else if oracle_config.fallback_enabled {
                    Self::from_result(fallback)
                } else {
                    PriceQueryResult {
                        success: false,
                        price_data: None,
                        error_message: Some(SwapError::InvalidPriceData),
                    }
                }
            },
            Err(error) => {
                if oracle_config.fallback_enabled {
                    Self::from_result(fallback)
                } else {
                    PriceQueryResult { success: false, price_data: None, error_message: Some(error) }
                }
            },
        }
    }

    fn from_result(r: Result<PriceData, SwapError>) -> (q: PriceQueryResult)
        ensures
            q == spec_from_result(r),
    {
        match r {
            Ok(price_data) => PriceQueryResult { success: true, price_data: Some(price_data), error_message: None },
            Err(error) => PriceQueryResult { success: false, price_data: None, error_message: Some(error) },
        }
    }

    /// The current price of `asset`, falling back to historical data when the primary
    /// answer fails or is of poor quality and fallback is enabled.
    pub fn get_price(oracle_config: &OracleConfig, asset_symbol: &String, now: u64) -> (r: PriceQueryResult)
        ensures
            r == spec_get_price(*oracle_config, *asset_symbol, now),
            r.success ==> r.price_data.is_some(),
    {
        let primary = Self::query_oracle_price(asset_symbol, now);
        let fallback = Self::query_historical_price(asset_symbol, now);
        Self::resolve_price(oracle_config, now, primary, fallback)
    }

    /// The fallback answer for `asset`: historical data.
    pub fn get_fallback_price(asset_symbol: &String, now: u64) -> (r: PriceQueryResult)
        ensures
            r == spec_from_result(spec_historical_query(*asset_symbol, now)),
    {
        Self::from_result(Self::query_historical_price(asset_symbol, now))
    }

    /// Stand-in primary source.
    pub fn query_oracle_price(asset_symbol: &String, now: u64) -> (r: Result<PriceData, SwapError>)
        ensures
            r == spec_primary_query(*asset_symbol, now),
    {
        let price: u64 = if symbol_is(asset_symbol, "XLM") {
            120000
        } else if symbol_is(asset_symbol, "USDC") {
            1000000
        } else if symbol_is(asset_symbol, "BTC") {
            45000000000
        } else if symbol_is(asset_symbol, "ETH") {
            3000000000
        } else {
            return Err(SwapError::UnsupportedAsset);
        };
        Ok(
            PriceData {
                asset_symbol: asset_symbol.clone(),
                price,
                timestamp: now,
                confidence: PRIMARY_CONFIDENCE,
                source_count: PRIMARY_SOURCE_COUNT,
            },
        )
    }

    /// Stand-in historical source: older, less confident, fewer sources.
    pub fn query_historical_price(asset_symbol: &String, now: u64) -> (r: Result<PriceData, SwapError>)
        ensures
            r == spec_historical_query(*asset_symbol, now),
    {
        let price: u64 = if symbol_is(asset_symbol, "XLM") {
            118000
        } else if symbol_is(asset_symbol, "USDC") {
            999500
        } else if symbol_is(asset_symbol, "BTC") {
            44500000000
        } else if symbol_is(asset_symbol, "ETH") {
            2980000000
        } else {
            return Err(SwapError::NoHistoricalData);
        };
        Ok(
            PriceData {
                asset_symbol: asset_symbol.clone(),
                price,
                timestamp: now.saturating_sub(HISTORICAL_AGE),
                confidence: HISTORICAL_CONFIDENCE,
                source_count: HISTORICAL_SOURCE_COUNT,
            },
        )
    }

    pub fn is_price_data_valid(price_data: &PriceData, oracle_config: &OracleConfig, now: u64) -> (r: bool)
        ensures
            r == spec_price_data_valid(*price_data, *oracle_config, now),
    {
        if now.saturating_sub(price_data.timestamp) > oracle_config.max_price_age {
            return false;
        }
        if price_data.confidence < oracle_config.min_confidence {
            return false;
        }
        if price_data.price == 0 {
            return false;
        }
        if price_data.source_count < 2 {
            return false;
        }
        true
    }

    /// The check made before any execution: rejects stale, unconfident or zero prices.
    pub fn validate_price_for_swap(price_data: &PriceData, oracle_config: &OracleConfig, now: u64) -> (r: Result<
        (),
        SwapError,
    >)
        ensures
            r == spec_validate_price_for_swap(*price_data, *oracle_config, now),
            r is Ok <==> spec_price_usable(*price_data, *oracle_config, now),
    {
        if now.saturating_sub(price_data.timestamp) > oracle_config.max_price_age {
            return Err(SwapError::PriceTooOld);
        }
        if price_data.confidence < oracle_config.min_confidence {
            return Err(SwapError::InsufficientConfidence);
        }
        if price_data.price == 0 {
            return Err(SwapError::ZeroPrice);
        }
        Ok(())
    }

    /// Prices of all `asset_symbols` in order, or the reason of the first that fails.
    pub fn get_multiple_prices(oracle_config: &OracleConfig, asset_symbols: &[String], now: u64) -> (r: Result<
        Vec<PriceData>,
        SwapError,
    >)
        ensures
            match r {
                Ok(v) => {
                    &&& v@.len() == asset_symbols@.len()
                    &&& forall|i: int|
                        0 <= i < v@.len() ==> spec_get_price(*oracle_config, asset_symbols@[i], now) == query_success(
                            #[trigger] v@[i],
                        )
                },
                Err(e) => exists|k: int|
                    {
                        &&& 0 <= k < asset_symbols@.len()
                        &&& forall|j: int| 0 <= j < k ==> (#[trigger] spec_get_price(*oracle_config, asset_symbols@[j], now)).success
                        &&& !spec_get_price(*oracle_config, asset_symbols@[k], now).success
                        &&& e == spec_query_error(spec_get_price(*oracle_config, asset_symbols@[k], now))
                    },
            },
    {
        let mut prices: Vec<PriceData> = Vec::new();
        let mut i: usize = 0;
        while i < asset_symbols.len()
            invariant
                i <= asset_symbols@.len(),
                prices@.len() == i,
                forall|j: int|
                    0 <= j < i ==> spec_get_price(*oracle_config, asset_symbols@[j], now) == query_success(
                        #[trigger] prices@[j],
                    ),
            decreases asset_symbols@.len() - i,
        {
            let result = Self::get_price(oracle_config, &asset_symbols[i], now);
            if result.success {
                match result.price_data {
                    Some(price_data) => {
                        prices.push(price_data);
                    },
                    None => {
                        return Err(SwapError::MissingPriceData);
                    },
                }
            } else {
                let e = match result.error_message {
                    Some(e) => e,
                    None => SwapError::PriceQueryFailed,
                };
                assert forall|j: int| 0 <= j < i implies (#[trigger] spec_get_price(
                    *oracle_config,
                    asset_symbols@[j],
                    now,
                )).success by {
                    assert(spec_get_price(*oracle_config, asset_symbols@[j], now) == query_success(prices@[j]));
                }
                return Err(e);
            }
            i += 1;
        }
        Ok(prices)
    }

    /// `from_asset`'s price in units of `to_asset`, scaled by 10^7.
    pub fn calculate_exchange_rate(oracle_config: &OracleConfig, from_asset: &String, to_asset: &String, now: u64) -> (r:
        Result<u64, SwapError>)
        ensures
            r == spec_exchange_rate(*oracle_config, *from_asset, *to_asset, now),
    {
        let from_result = Self::get_price(oracle_config, from_asset, now);
        let to_result = Self::get_price(oracle_config, to_asset, now);
        if !from_result.success || !to_result.success {
            return Err(SwapError::FailedToGetPrices);
        }
        let from_price = match from_result.price_data {
            Some(d) => d.price,
            None => {
                return Err(SwapError::MissingPriceData);
            },
        };
        let to_price = match to_result.price_data {
            Some(d) => d.price,
            None => {
                return Err(SwapError::MissingPriceData);
            },
        };
        if to_price == 0 {
            return Err(SwapError::ZeroDestinationPrice);
        }
        let f: u128 = from_price as u128;
        proof {
            assert(f * 10_000_000 <= 0xffff_ffff_ffff_ffffu128 * 10_000_000) by (nonlinear_arith)
                requires f <= 0xffff_ffff_ffff_ffffu128;
        }
        let rate: u128 = f * (PRICE_SCALING_FACTOR as u128) / (to_price as u128);
        if rate > u64::MAX as u128 {
            return Err(SwapError::RateOverflow);
        }
        Ok(rate as u64)
    }

    /// Expected output of `amount_in` of `from_asset` in `to_asset` at the oracle rate.
    pub fn estimate_swap_output(
        oracle_config: &OracleConfig,
        from_asset: &String,
        to_asset: &String,
        amount_in: u64,
        now: u64,
    ) -> (r: Result<u64, SwapError>)
        ensures
            r == (match spec_exchange_rate(*oracle_config, *from_asset, *to_asset, now) {
                Err(e) => Err(e),
                Ok(rate) => if rate == 0 {
                    Err(SwapError::ZeroExchangeRate)
                } else if amount_in * rate / PRICE_SCALING_FACTOR as int > u64::MAX as int {
                    Err(SwapError::RateOverflow)
                } else {
                    Ok((amount_in * rate / PRICE_SCALING_FACTOR as int) as u64)
                },
            }),
    {
        let exchange_rate = match Self::calculate_exchange_rate(oracle_config, from_asset, to_asset, now) {
            Ok(rate) => rate,
            Err(e) => {
                return Err(e);
            },
        };
        if exchange_rate == 0 {
            return Err(SwapError::ZeroExchangeRate);
        }
        let a: u128 = amount_in as u128;
        let x: u128 = exchange_rate as u128;
        proof {
            assert(a * x <= 0xffff_ffff_ffff_ffffu128 * 0xffff_ffff_ffff_ffffu128) by (nonlinear_arith)
                requires a <= 0xffff_ffff_ffff_ffffu128, x <= 0xffff_ffff_ffff_ffffu128;
        }
        let out: u128 = a * x / (PRICE_SCALING_FACTOR as u128);
        if out > u64::MAX as u128 {
            return Err(SwapError::RateOverflow);
        }
        Ok(out as u64)
    }

    /// Swap size against total liquidity in basis points, capped at 50%.
    pub fn get_price_impact(
        oracle_config: &OracleConfig,
        asset_symbol: &String,
        swap_amount: u64,
        total_liquidity: u64,
    ) -> (r: Result<u32, SwapError>)
        ensures
            r == (if total_liquidity == 0 {
                Err(SwapError::ZeroLiquidity)
            } else if swap_amount * 10000 / total_liquidity as int > MAX_PRICE_IMPACT {
                Ok(MAX_PRICE_IMPACT)
            } else {
                Ok((swap_amount * 10000 / total_liquidity as int) as u32)
            }),
    {
        if total_liquidity == 0 {
            return Err(SwapError::ZeroLiquidity);
        }
        let impact: u128 = (swap_amount as u128) * 10000 / (total_liquidity as u128);
        if impact > MAX_PRICE_IMPACT as u128 {
            Ok(MAX_PRICE_IMPACT)
        } else {
            Ok(impact as u32)
        }
    }

    /// Whether the current price is within `stability_threshold` basis points of the
    /// historical one.
    pub fn is_price_stable(
        oracle_config: &OracleConfig,
        asset_symbol: &String,
        stability_threshold: u32,
        now: u64,
    ) -> (r: Result<bool, SwapError>)
        ensures
            r == ({
                let c = spec_get_price(*oracle_config, *asset_symbol, now);
                let h = spec_from_result(spec_historical_query(*asset_symbol, now));
                let cp = spec_query_price(c) as int;
                let hp = spec_query_price(h) as int;
                if !c.success {
                    Err(SwapError::FailedToGetCurrentPrice)
                } else if !h.success {
                    Err(SwapError::FailedToGetHistoricalPrice)
                } else if hp == 0 {
                    Err(SwapError::InvalidHistoricalPrice)
                } else {
                    let change = if cp > hp { cp - hp } else { hp - cp };
                    Ok(change * 10000 / hp <= stability_threshold)
                }
            }),
    {
        let current_result = Self::get_price(oracle_config, asset_symbol, now);
        if !current_result.success {
            return Err(SwapError::FailedToGetCurrentPrice);
        }
        let current_price = match current_result.price_data {
            Some(d) => d.price,
            None => {
                return Err(SwapError::MissingPriceData);
            },
        };
        let historical_result = Self::get_fallback_price(asset_symbol, now);
        if !historical_result.success {
            return Err(SwapError::FailedToGetHistoricalPrice);
        }
        let historical_price = match historical_result.price_data {
            Some(d) => d.price,
            None => {
                return Err(SwapError::MissingPriceData);
            },
        };
        if historical_price == 0 {
            return Err(SwapError::InvalidHistoricalPrice);
        }
        let change: u128 = if current_price > historical_price {
            (current_price - historical_price) as u128
        } else {
            (historical_price - current_price) as u128
        };
        Ok(change * 10000 / (historical_price as u128) <= stability_threshold as u128)
    }
}

/// Default settings and their validation.
pub struct OracleConfigManager;

impl OracleConfigManager {
    pub open spec fn spec_validate_config(config: OracleConfig) -> Result<(), SwapError> {
        if config.max_price_age == 0 || config.max_price_age > MAX_PRICE_AGE_LIMIT {
            Err(SwapError::InvalidMaxPriceAge)
        } else if config.min_confidence > 100 {
            Err(SwapError::InvalidMinConfidence)
        } else {
            Ok(())
        }
    }

    pub open spec fn spec_default_config(oracle_address: String) -> OracleConfig {
        OracleConfig {
            oracle_contract_address: oracle_address,
            max_price_age: DEFAULT_MAX_PRICE_AGE,
            fallback_enabled: true,
            min_confidence: DEFAULT_MIN_CONFIDENCE,
        }
    }

    /// Prices at most five minutes old, fallback on, at least 70% confidence.
    pub fn create_default_config(oracle_address: String) -> (r: OracleConfig)
        ensures
            r == Self::spec_default_config(oracle_address),
    {
        OracleConfig {
            oracle_contract_address: oracle_address,
            max_price_age: DEFAULT_MAX_PRICE_AGE,
            fallback_enabled: true,
            min_confidence: DEFAULT_MIN_CONFIDENCE,
        }
    }

    /// Price age in `[1, 3600]` seconds, confidence at most 100.
    pub fn validate_config(config: &OracleConfig) -> (r: Result<(), SwapError>)
        ensures
            r == (if config.max_price_age == 0 || config.max_price_age > MAX_PRICE_AGE_LIMIT {
                Err(SwapError::InvalidMaxPriceAge)
            } else if config.min_confidence > 100 {
                Err(SwapError::InvalidMinConfidence)
            } else {
                Ok(())
            }),
    {
        if config.max_price_age == 0 || config.max_price_age > MAX_PRICE_AGE_LIMIT {
            return Err(SwapError::InvalidMaxPriceAge);
        }
        if config.min_confidence > 100 {
            return Err(SwapError::InvalidMinConfidence);
        }
        Ok(())
    }
}

} // verus!
