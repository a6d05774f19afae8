use vstd::prelude::*;
use crate::error::SwapError;
use crate::util::{clone_strings, sat_add, sat_sub, symbol_is};

verus! {

/// Settings of the DEX the engine quotes and swaps against.
#[derive(Debug, PartialEq, Eq)]
pub struct DexConfig {
    pub dex_contract_address: String,
    pub router_address: Option<String>,
    pub factory_address: Option<String>,
    /// Fee tier in basis points.
    pub fee_tier: u32,
    /// Minimum total pool reserve required for swaps.
    pub min_liquidity: u64,
    /// Maximum allowed slippage in basis points.
    pub max_slippage_tolerance: u32,
}

fn clone_opt_string(o: &Option<String>) -> (r: Option<String>)
    ensures
        r == *o,
{
    match o {
        Some(s) => Some(s.clone()),
        None => None,
    }
}

impl Clone for DexConfig {
    fn clone(&self) -> (r: Self)
        ensures
            r == *self,
    {
        DexConfig {
            dex_contract_address: self.dex_contract_address.clone(),
            router_address: clone_opt_string(&self.router_address),
            factory_address: clone_opt_string(&self.factory_address),
            fee_tier: self.fee_tier,
            min_liquidity: self.min_liquidity,
            max_slippage_tolerance: self.max_slippage_tolerance,
        }
    }
}

/// A route: the intermediate assets between the endpoints and one pool per hop.
#[derive(Debug, PartialEq, Eq)]
pub struct SwapPath {
    pub token_in: String,
    pub token_out: String,
    pub intermediate_tokens: Vec<String>,
    pub pool_addresses: Vec<String>,
}

impl SwapPath {
    /// Same endpoints, same intermediate assets and same pools, in order.
    pub open spec fn same_as(self, other: SwapPath) -> bool {
        &&& self.token_in == other.token_in
        &&& self.token_out == other.token_out
        &&& self.intermediate_tokens@ == other.intermediate_tokens@
        &&& self.pool_addresses@ == other.pool_addresses@
    }

    pub fn duplicate(&self) -> (r: Self)
        ensures
            r.same_as(*self),
    {
        SwapPath {
            token_in: self.token_in.clone(),
            token_out: self.token_out.clone(),
            intermediate_tokens: clone_strings(&self.intermediate_tokens),
            pool_addresses: clone_strings(&self.pool_addresses),
        }
    }
}

impl Clone for SwapPath {
    fn clone(&self) -> (r: Self)
        ensures
            r.same_as(*self),
    {
        self.duplicate()
    }
}

/// The quoted outcome of a swap along a route; stale after `valid_until`.
#[derive(Debug, PartialEq, Eq)]
pub struct SwapQuote {
    pub amount_in: u64,
    pub amount_out: u64,
    /// In basis points.
    pub price_impact: u32,
    pub estimated_gas: u64,
    pub route: SwapPath,
    pub valid_until: u64,
}

/// What a swap is asked to do.
#[derive(Debug, PartialEq, Eq)]
pub struct SwapParams {
    pub token_in: String,
    pub token_out: String,
    pub amount_in: u64,
    pub amount_out_min: u64,
    /// Recipient.
    pub to: String,
    pub deadline: u64,
}

/// What a swap did.
#[derive(Debug, PartialEq, Eq)]
pub struct SwapResult {
    pub success: bool,
    pub amount_in: u64,
    pub amount_out: u64,
    pub actual_price_impact: u32,
    pub gas_used: u64,
    pub transaction_hash: String,
    pub error_message: Option<SwapError>,
}

/// Reserves and fee of the pool between two assets.
#[derive(Debug, PartialEq, Eq)]
pub struct PoolInfo {
    pub pool_address: String,
    pub token_a: String,
    pub token_b: String,
    pub reserve_a: u64,
    pub reserve_b: u64,
    pub total_supply: u64,
    pub fee_rate: u32,
    pub last_updated: u64,
}

pub const DEFAULT_FEE_TIER: u32 = 30;
pub const MAX_FEE_TIER: u32 = 1000;
pub const DEFAULT_MIN_LIQUIDITY: u64 = 1_000_000_000_000;
pub const DEFAULT_MAX_SLIPPAGE: u32 = 1000;
pub const QUOTE_VALIDITY_DURATION: u64 = 30;
pub const MAX_SWAP_AMOUNT: u64 = 10_000_000_000_000;
pub const BASE_SWAP_GAS: u64 = 100_000;
pub const HOP_GAS: u64 = 50_000;
pub const TOKEN_COMPLEXITY_GAS: u64 = 10_000;
pub const SWAP_DEADLINE_WINDOW: u64 = 300;

/// Reserves of the stand-in pools, named pair first, then the asset held.
pub const XLM_USDC_XLM: u64 = 100_000_000_000_000;
pub const XLM_USDC_USDC: u64 = 1_200_000_000_000;
pub const BTC_XLM_BTC: u64 = 1_000_000_000;
pub const BTC_XLM_XLM: u64 = 375_000_000_000_000;
pub const ETH_XLM_ETH: u64 = 10_000_000_000;
pub const ETH_XLM_XLM: u64 = 250_000_000_000_000;
pub const USDC_BTC_USDC: u64 = 4_500_000_000_000;
pub const USDC_BTC_BTC: u64 = 1_000_000_000;
pub const DEFAULT_RESERVE: u64 = 10_000_000_000_000;

/// Reserves of the stand-in pools, `(reserve of a, reserve of b)`.
pub open spec fn spec_reserves(a: Seq<char>, b: Seq<char>) -> (u64, u64) {
    if a == "XLM"@ && b == "USDC"@ {
        (XLM_USDC_XLM, XLM_USDC_USDC)
    } else if a == "USDC"@ && b == "XLM"@ {
        (XLM_USDC_USDC, XLM_USDC_XLM)
    } else if a == "BTC"@ && b == "XLM"@ {
        (BTC_XLM_BTC, BTC_XLM_XLM)
    } else if a == "XLM"@ && b == "BTC"@ {
        (BTC_XLM_XLM, BTC_XLM_BTC)
    } else if a == "ETH"@ && b == "XLM"@ {
        (ETH_XLM_ETH, ETH_XLM_XLM)
    } else if a == "XLM"@ && b == "ETH"@ {
        (ETH_XLM_XLM, ETH_XLM_ETH)
    } else if a == "USDC"@ && b == "BTC"@ {
        (USDC_BTC_USDC, USDC_BTC_BTC)
    } else if a == "BTC"@ && b == "USDC"@ {
        (USDC_BTC_BTC, USDC_BTC_USDC)
    } else {
        (DEFAULT_RESERVE, DEFAULT_RESERVE)
    }
}

/// The address of the pool between `a` and `b`.
pub open spec fn spec_pool_address(a: Seq<char>, b: Seq<char>) -> Seq<char> {
    a + "_"@ + b + "_pool"@
}

/// The views of an optional list of pool addresses.
pub open spec fn listing_view(listed: Option<Vec<String>>) -> Option<Seq<Seq<char>>> {
    match listed {
        Some(v) => Some(views(v@)),
        None => None,
    }
}

/// Whether the DEX lists `pool`. `None` stands for a DEX that lists a pool for every
/// pair; otherwise the pool must be among the listed addresses.
pub open spec fn spec_pool_exists(listed: Option<Seq<Seq<char>>>, pool: Seq<char>) -> bool {
    match listed {
        None => true,
        Some(pools) => pools.contains(pool),
    }
}

/// Output of a constant-product swap with a basis-point fee, and its price impact in
/// basis points (held at `u32::MAX`).
pub open spec fn spec_swap_output(reserve_in: u64, reserve_out: u64, fee_rate: u32, amount_in: u64) -> Result<
    (u64, u32),
    SwapError,
> {
    if reserve_in == 0 || reserve_out == 0 {
        Err(SwapError::InsufficientLiquidity)
    } else {
        let with_fee = amount_in * sat_sub(10000, fee_rate as int) / 10000;
        let out = with_fee * reserve_out / (reserve_in + with_fee);
        let impact = amount_in * 10000 / reserve_in as int;
        Ok((out as u64, if impact > u32::MAX as int { u32::MAX } else { impact as u32 }))
    }
}

/// One hop from `a` to `b` through the stand-in pool of that pair.
pub open spec fn spec_hop(a: Seq<char>, b: Seq<char>, fee_rate: u32, amount_in: u64, a_input: bool) -> Result<
    (u64, u32),
    SwapError,
> {
    let (ra, rb) = spec_reserves(a, b);
    if a_input {
        spec_swap_output(ra, rb, fee_rate, amount_in)
    } else {
        spec_swap_output(rb, ra, fee_rate, amount_in)
    }
}

pub open spec fn sat_add_u32(a: u32, b: u32) -> u32 {
    if a + b > u32::MAX as int { u32::MAX } else { (a + b) as u32 }
}

pub open spec fn spec_validate_swap_params(token_in: Seq<char>, token_out: Seq<char>, amount_in: u64) -> Result<(), SwapError> {
    if token_in == token_out {
        Err(SwapError::IdenticalTokens)
    } else if amount_in == 0 {
        Err(SwapError::ZeroAmount)
    } else if amount_in > MAX_SWAP_AMOUNT {
        Err(SwapError::AmountTooLarge)
    } else {
        Ok(())
    }
}

/// The input side holds at least twice the amount and the pool in total at least the
/// configured minimum.
pub open spec fn spec_has_liquidity(dex_config: DexConfig, token_in: Seq<char>, token_out: Seq<char>, amount_in: u64) -> bool {
    let (ra, rb) = spec_reserves(token_in, token_out);
    ra >= 2 * amount_in && ra + rb >= dex_config.min_liquidity
}

/// Extra gas of one endpoint: the native asset costs nothing extra.
pub open spec fn spec_token_gas(t: Seq<char>) -> int {
    if t == "XLM"@ { 0 } else { TOKEN_COMPLEXITY_GAS as int }
}

/// Base cost, a cost per intermediate asset, and the endpoints' surcharges; held at
/// `u64::MAX`.
pub open spec fn spec_gas(hops: int, token_in: Seq<char>, token_out: Seq<char>) -> u64 {
    let g = BASE_SWAP_GAS + hops * HOP_GAS + spec_token_gas(token_in) + spec_token_gas(token_out);
    if g > u64::MAX as int { u64::MAX } else { g as u64 }
}

/// The views of a list of strings.
pub open spec fn views(s: Seq<String>) -> Seq<Seq<char>> {
    s.map_values(|x: String| x@)
}

/// The intermediate assets tried, in order, for a one-hop route.
pub open spec fn major_tokens() -> Seq<Seq<char>> {
    seq!["XLM"@, "USDC"@]
}

/// Whether `m` can bridge `i` and `o`: it is neither endpoint and both pools exist.
pub open spec fn hop_viable(listed: Option<Seq<Seq<char>>>, i: Seq<char>, o: Seq<char>, m: Seq<char>) -> bool {
    &&& m != i
    &&& m != o
    &&& spec_pool_exists(listed, spec_pool_address(i, m))
    &&& spec_pool_exists(listed, spec_pool_address(m, o))
}

/// Index of the first major asset from `k` on that bridges `i` and `o`.
pub open spec fn first_viable(listed: Option<Seq<Seq<char>>>, i: Seq<char>, o: Seq<char>, k: int) -> Option<int>
    decreases major_tokens().len() - k,
{
    if k < 0 || k >= major_tokens().len() {
        None
    } else if hop_viable(listed, i, o, major_tokens()[k]) {
        Some(k)
    } else {
        first_viable(listed, i, o, k + 1)
    }
}

/// The intermediate assets of the route chosen from `i` to `o`: none for the direct
/// pool, else the first bridging major asset.
pub open spec fn spec_find_path(listed: Option<Seq<Seq<char>>>, i: Seq<char>, o: Seq<char>) -> Option<
    Seq<Seq<char>>,
> {
    if spec_pool_exists(listed, spec_pool_address(i, o)) {
        Some(Seq::empty())
    } else {
        match first_viable(listed, i, o, 0) {
            Some(k) => Some(seq![major_tokens()[k]]),
            None => None,
        }
    }
}

/// The pools of a route, one per hop.
pub open spec fn spec_path_pools(i: Seq<char>, mids: Seq<Seq<char>>, o: Seq<char>) -> Seq<Seq<char>> {
    if mids.len() == 0 {
        seq![spec_pool_address(i, o)]
    } else {
        seq![spec_pool_address(i, mids[0]), spec_pool_address(mids[0], o)]
    }
}

/// `p` is the route from `i` to `o` through `mids`.
pub open spec fn path_is(p: SwapPath, i: Seq<char>, o: Seq<char>, mids: Seq<Seq<char>>) -> bool {
    &&& p.token_in@ == i
    &&& p.token_out@ == o
    &&& views(p.intermediate_tokens@) == mids
    &&& views(p.pool_addresses@) == spec_path_pools(i, mids, o)
}

/// Amount and summed impact after the hops from `prev` through each of `mids`, and the
/// asset reached.
pub open spec fn spec_multi_hop(prev: Seq<char>, mids: Seq<Seq<char>>, fee: u32, amount: u64, impact: u32) -> Result<
    (Seq<char>, u64, u32),
    SwapError,
>
    decreases mids.len(),
{
    if mids.len() == 0 {
        Ok((prev, amount, impact))
    } else {
        match spec_hop(prev, mids[0], fee, amount, true) {
            Err(e) => Err(e),
            Ok((out, imp)) => spec_multi_hop(mids[0], mids.drop_first(), fee, out, sat_add_u32(impact, imp)),
        }
    }
}

/// Output and summed price impact of `amount` along the route, each hop priced on its
/// input side.
pub open spec fn spec_route_output(i: Seq<char>, mids: Seq<Seq<char>>, o: Seq<char>, fee: u32, amount: u64) -> Result<
    (u64, u32),
    SwapError,
> {
    if mids.len() == 0 {
        spec_hop(i, o, fee, amount, true)
    } else {
        match spec_multi_hop(i, mids, fee, amount, 0) {
            Err(e) => Err(e),
            Ok((last, amt, imp)) => match spec_hop(last, o, fee, amt, true) {
                Err(e) => Err(e),
                Ok((out, imp2)) => Ok((out, sat_add_u32(imp, imp2))),
            },
        }
    }
}

/// Route, output and impact of a quote for `amount` from `i` to `o`, or why there is none.
pub open spec fn spec_quote_outcome(
    listed: Option<Seq<Seq<char>>>,
    i: Seq<char>,
    o: Seq<char>,
    fee: u32,
    amount: u64,
) -> Result<
    (Seq<Seq<char>>, u64, u32),
    SwapError,
> {
    match spec_validate_swap_params(i, o, amount) {
        Err(e) => Err(e),
        Ok(_) => match spec_find_path(listed, i, o) {
            None => Err(SwapError::NoPathFound),
            Some(mids) => match spec_route_output(i, mids, o, fee, amount) {
                Err(e) => Err(e),
                Ok((out, imp)) => Ok((mids, out, imp)),
            },
        },
    }
}

/// Output, impact and gas estimate of a swap at `now`, or why it is not attempted.
pub open spec fn spec_execute_outcome(
    listed: Option<Seq<Seq<char>>>,
    params: SwapParams,
    fee: u32,
    now: u64,
) -> Result<(u64, u32, u64), SwapError> {
    if now > params.deadline {
        Err(SwapError::DeadlineExceeded)
    } else if params.amount_out_min == 0 {
        Err(SwapError::InvalidMinOutput)
    } else {
        match spec_quote_outcome(listed, params.token_in@, params.token_out@, fee, params.amount_in) {
            Err(e) => Err(e),
            Ok((mids, out, imp)) => if out < params.amount_out_min {
                Err(SwapError::SlippageExceeded)
            } else {
                Ok((out, imp, spec_gas(mids.len() as int, params.token_in@, params.token_out@)))
            },
        }
    }
}

/// `r` reports `outcome` of a swap asked with `params`.
pub open spec fn result_reports(r: SwapResult, params: SwapParams, outcome: Result<(u64, u32, u64), SwapError>) -> bool {
    match outcome {
        Err(e) => {
            &&& !r.success
            &&& r.amount_in == 0
            &&& r.amount_out == 0
            &&& r.actual_price_impact == 0
            &&& r.gas_used == 0
            &&& r.transaction_hash@ == ""@
            &&& r.error_message == Some(e)
        },
        Ok((out, imp, gas)) => {
            &&& r.success
            &&& r.amount_in == params.amount_in
            &&& r.amount_out == out
            &&& r.actual_price_impact == imp
            &&& r.gas_used == sat_add(gas as int, (gas / 10) as int) as u64
            &&& r.transaction_hash@ == "simulated_tx_hash"@
            &&& r.error_message == None::<SwapError>
        },
    }
}

/// The simulated DEX that quotes and performs swaps.
pub struct StellarDexIntegration;

impl StellarDexIntegration {
    pub fn new() -> (r: Self) {
        StellarDexIntegration
    }

    /// Reserves of the stand-in pool between `token_a` and `token_b`, in that order.
    pub fn get_simulated_reserves(token_a: &String, token_b: &String) -> (r: (u64, u64))
        ensures
            r == spec_reserves(token_a@, token_b@),
    {
        if symbol_is(token_a, "XLM") && symbol_is(token_b, "USDC") {
            (XLM_USDC_XLM, XLM_USDC_USDC)
        } else if symbol_is(token_a, "USDC") && symbol_is(token_b, "XLM") {
            (XLM_USDC_USDC, XLM_USDC_XLM)
        } else if symbol_is(token_a, "BTC") && symbol_is(token_b, "XLM") {
            (BTC_XLM_BTC, BTC_XLM_XLM)
        } else if symbol_is(token_a, "XLM") && symbol_is(token_b, "BTC") {
            (BTC_XLM_XLM, BTC_XLM_BTC)
        } else if symbol_is(token_a, "ETH") && symbol_is(token_b, "XLM") {
            (ETH_XLM_ETH, ETH_XLM_XLM)
        } else if symbol_is(token_a, "XLM") && symbol_is(token_b, "ETH") {
            (ETH_XLM_XLM, ETH_XLM_ETH)
        } else if symbol_is(token_a, "USDC") && symbol_is(token_b, "BTC") {
            (USDC_BTC_USDC, USDC_BTC_BTC)
        } else if symbol_is(token_a, "BTC") && symbol_is(token_b, "USDC") {
            (USDC_BTC_BTC, USDC_BTC_USDC)
        } else {
            (DEFAULT_RESERVE, DEFAULT_RESERVE)
        }
    }

    /// The deterministic address of the pool between `token_a` and `token_b`.
    pub fn calculate_pool_address(token_a: &String, token_b: &String) -> (r: String)
        ensures
            r@ == spec_pool_address(token_a@, token_b@),
    {
        let s = token_a.clone().concat("_");
        let s = s.concat(token_b.as_str());
        s.concat("_pool")
    }

    /// Whether `listed_pools` lists `pool_address`; `None` lists every pool.
    pub fn pool_exists(pool_address: &String, listed_pools: &Option<Vec<String>>) -> (r: bool)
        ensures
            r == spec_pool_exists(listing_view(*listed_pools), pool_address@),
    {
        match listed_pools {
            None => true,
            Some(pools) => {
                assert(listing_view(*listed_pools) == Some(views(pools@)));
                let mut i: usize = 0;
                while i < pools.len()
                    invariant
                        i <= pools@.len(),
                        listing_view(*listed_pools) == Some(views(pools@)),
                        forall|j: int| 0 <= j < i ==> (#[trigger] pools@[j])@ != pool_address@,
                    decreases pools@.len() - i,
                {
                    if pools[i] == *pool_address {
                        assert(views(pools@).len() == pools@.len());
                        assert(views(pools@)[i as int] == pool_address@);
                        assert(views(pools@).contains(pool_address@));
                        return true;
                    }
                    i += 1;
                }
                assert(!views(pools@).contains(pool_address@)) by {
                    if views(pools@).contains(pool_address@) {
                        let j = choose|j: int| 0 <= j < views(pools@).len() && views(pools@)[j] == pool_address@;
                        assert(pools@[j]@ == pool_address@);
                    }
                }
                false
            },
        }
    }

    /// The pool between `token_a` and `token_b` as seen at `now`, with the configured fee.
    pub fn get_pool_info(dex_config: &DexConfig, token_a: &String, token_b: &String, now: u64) -> (r:
        Result<PoolInfo, SwapError>)
        ensures
            r matches Ok(p) && ({
                let (ra, rb) = spec_reserves(token_a@, token_b@);
                &&& p.pool_address@ == spec_pool_address(token_a@, token_b@)
                &&& p.token_a == *token_a
                &&& p.token_b == *token_b
                &&& p.reserve_a == ra
                &&& p.reserve_b == rb
                &&& p.total_supply == sat_add(ra as int, rb as int)
                &&& p.fee_rate == dex_config.fee_tier
                &&& p.last_updated == now
            }),
    {
        let pool_address = Self::calculate_pool_address(token_a, token_b);
        let (reserve_a, reserve_b) = Self::get_simulated_reserves(token_a, token_b);
        Ok(
            PoolInfo {
                pool_address,
                token_a: token_a.clone(),
                token_b: token_b.clone(),
                reserve_a,
                reserve_b,
                total_supply: reserve_a.saturating_add(reserve_b),
                fee_rate: dex_config.fee_tier,
                last_updated: now,
            },
        )
    }

    /// Constant-product output of `amount_in` through `pool_info`, and the price impact.
    pub fn calculate_swap_output(pool_info: &PoolInfo, amount_in: u64, is_token_a_input: bool) -> (r:
        Result<(u64, u32), SwapError>)
        ensures
            r == (if is_token_a_input {
                spec_swap_output(pool_info.reserve_a, pool_info.reserve_b, pool_info.fee_rate, amount_in)
            } else {
                spec_swap_output(pool_info.reserve_b, pool_info.reserve_a, pool_info.fee_rate, amount_in)
            }),
    {
        let (reserve_in, reserve_out) = if is_token_a_input {
            (pool_info.reserve_a, pool_info.reserve_b)
        } else {
            (pool_info.reserve_b, pool_info.reserve_a)
        };
        if reserve_in == 0 || reserve_out == 0 {
            return Err(SwapError::InsufficientLiquidity);
        }
        let fee_complement: u128 = if pool_info.fee_rate >= 10000 {
            0
        } else {
            (10000 - pool_info.fee_rate) as u128
        };
        let a: u128 = amount_in as u128;
        proof {
            assert(a * fee_complement / 10000 <= a) by (nonlinear_arith)
                requires fee_complement <= 10000;
        }
        let with_fee: u128 = a * fee_complement / 10000;
        let rin: u128 = reserve_in as u128;
        let rout: u128 = reserve_out as u128;
        proof {
            assert(with_fee * rout <= 0xffff_ffff_ffff_ffffu128 * 0xffff_ffff_ffff_ffffu128) by (nonlinear_arith)
                requires with_fee <= 0xffff_ffff_ffff_ffffu128, rout <= 0xffff_ffff_ffff_ffffu128;
            assert(with_fee * rout / (rin + with_fee) <= rout) by (nonlinear_arith)
                requires rin > 0;
        }
        let amount_out: u128 = with_fee * rout / (rin + with_fee);
        let impact: u128 = a * 10000 / rin;
        let price_impact: u32 = if impact > u32::MAX as u128 { u32::MAX } else { impact as u32 };
        Ok((amount_out as u64, price_impact))
    }

    /// Whether the input side holds at least twice `amount_in` and the pool in total
    /// at least the configured minimum.
    pub fn check_liquidity(
        dex_config: &DexConfig,
        token_in: &String,
        token_out: &String,
        amount_in: u64,
        now: u64,
    ) -> (r: Result<bool, SwapError>)
        ensures
            r == Ok::<bool, SwapError>(spec_has_liquidity(*dex_config, token_in@, token_out@, amount_in)),
    {
        let pool_info = match Self::get_pool_info(dex_config, token_in, token_out, now) {
            Ok(p) => p,
            Err(e) => {
                return Err(e);
            },
        };
        let required: u128 = 2 * (amount_in as u128);
        let available: u64 = if pool_info.token_a == *token_in {
            pool_info.reserve_a
        } else {
            pool_info.reserve_b
        };
        if (available as u128) < required {
            return Ok(false);
        }
        let total: u128 = pool_info.reserve_a as u128 + pool_info.reserve_b as u128;
        Ok(total >= dex_config.min_liquidity as u128)
    }

    /// Gas estimate for a swap along `swap_path`.
    pub fn estimate_gas(swap_params: &SwapParams, swap_path: &SwapPath) -> (r: u64)
        ensures
            r == spec_gas(
                swap_path.intermediate_tokens@.len() as int,
                swap_params.token_in@,
                swap_params.token_out@,
            ),
    {
        let hops: u128 = swap_path.intermediate_tokens.len() as u128;
        proof {
            assert(hops * 50000 <= 0xffff_ffff_ffff_ffffu128 * 50000) by (nonlinear_arith)
                requires hops <= 0xffff_ffff_ffff_ffffu128;
        }
        let complexity: u64 = Self::estimate_token_complexity_gas(&swap_params.token_in, &swap_params.token_out);
        let g: u128 = BASE_SWAP_GAS as u128 + hops * (HOP_GAS as u128) + complexity as u128;
        if g > u64::MAX as u128 {
            u64::MAX
        } else {
            g as u64
        }
    }

    fn estimate_token_complexity_gas(token_in: &String, token_out: &String) -> (r: u64)
        ensures
            r == spec_token_gas(token_in@) + spec_token_gas(token_out@),
    {
        let in_complexity: u64 = if symbol_is(token_in, "XLM") { 0 } else { TOKEN_COMPLEXITY_GAS };
        let out_complexity: u64 = if symbol_is(token_out, "XLM") { 0 } else { TOKEN_COMPLEXITY_GAS };
        in_complexity + out_complexity
    }

    /// Rejects identical endpoints, a zero amount and one above the swap limit.
    pub fn validate_swap_params(token_in: &String, token_out: &String, amount_in: u64) -> (r: Result<(), SwapError>)
        ensures
            r == spec_validate_swap_params(token_in@, token_out@, amount_in),
    {
        if *token_in == *token_out {
            return Err(SwapError::IdenticalTokens);
        }
        if amount_in == 0 {
            return Err(SwapError::ZeroAmount);
        }
        if amount_in > MAX_SWAP_AMOUNT {
            return Err(SwapError::AmountTooLarge);
        }
        Ok(())
    }

    /// Rejects a swap past its deadline or without a minimum output, then checks its
    /// endpoints and amount.
    pub fn validate_swap_execution(params: &SwapParams, now: u64) -> (r: Result<(), SwapError>)
        ensures
            r == (if now > params.deadline {
                Err(SwapError::DeadlineExceeded)
            } else if params.amount_out_min == 0 {
                Err(SwapError::InvalidMinOutput)
            } else {
                spec_validate_swap_params(params.token_in@, params.token_out@, params.amount_in)
            }),
    {
        if now > params.deadline {
            return Err(SwapError::DeadlineExceeded);
        }
        if params.amount_out_min == 0 {
            return Err(SwapError::InvalidMinOutput);
        }
        Self::validate_swap_params(&params.token_in, &params.token_out, params.amount_in)
    }

    fn major_token(k: usize) -> (r: String)
        requires
            k < major_tokens().len(),
        ensures
            r@ == major_tokens()[k as int],
    {
        if k == 0 {
            String::from_str("XLM")
        } else {
            String::from_str("USDC")
        }
    }

    /// The direct pool if `listed_pools` lists it, else the first major asset that
    /// bridges the two endpoints through listed pools.
    pub fn find_optimal_path(token_in: &String, token_out: &String, listed_pools: &Option<Vec<String>>) -> (r:
        Result<SwapPath, SwapError>)
        ensures
            match spec_find_path(listing_view(*listed_pools), token_in@, token_out@) {
                None => r == Err::<SwapPath, SwapError>(SwapError::NoPathFound),
                Some(mids) => r matches Ok(p) && path_is(p, token_in@, token_out@, mids),
            },
    {
        let direct_pool = Self::calculate_pool_address(token_in, token_out);
        if Self::pool_exists(&direct_pool, listed_pools) {
            let mut pools: Vec<String> = Vec::new();
            pools.push(direct_pool);
            let r = SwapPath {
                token_in: token_in.clone(),
                token_out: token_out.clone(),
                intermediate_tokens: Vec::new(),
                pool_addresses: pools,
            };
            assert(views(r.intermediate_tokens@) =~= Seq::<Seq<char>>::empty());
            assert(views(r.pool_addresses@) =~= spec_path_pools(token_in@, Seq::empty(), token_out@));
            return Ok(r);
        }
        let mut k: usize = 0;
        while k < 2
            invariant
                k <= 2,
                major_tokens().len() == 2,
                !spec_pool_exists(listing_view(*listed_pools), spec_pool_address(token_in@, token_out@)),
                first_viable(listing_view(*listed_pools), token_in@, token_out@, 0) == first_viable(
                    listing_view(*listed_pools),
                    token_in@,
                    token_out@,
                    k as int,
                ),
            decreases 2 - k,
        {
            let intermediate = Self::major_token(k);
            if intermediate == *token_in || intermediate == *token_out {
                k += 1;
                continue;
            }
            let pool1 = Self::calculate_pool_address(token_in, &intermediate);
            let pool2 = Self::calculate_pool_address(&intermediate, token_out);
            if Self::pool_exists(&pool1, listed_pools) && Self::pool_exists(&pool2, listed_pools) {
                let ghost mids = seq![intermediate@];
                let mut intermediate_tokens: Vec<String> = Vec::new();
                intermediate_tokens.push(intermediate);
                let mut pool_addresses: Vec<String> = Vec::new();
                pool_addresses.push(pool1);
                pool_addresses.push(pool2);
                let r = SwapPath {
                    token_in: token_in.clone(),
                    token_out: token_out.clone(),
                    intermediate_tokens,
                    pool_addresses,
                };
                assert(views(r.intermediate_tokens@) =~= mids);
                assert(views(r.pool_addresses@) =~= spec_path_pools(token_in@, mids, token_out@));
                return Ok(r);
            }
            k += 1;
        }
        Err(SwapError::NoPathFound)
    }

    /// Quote for `amount_in` along `swap_path` at `now`, valid for thirty seconds.
    pub fn calculate_swap_quote(dex_config: &DexConfig, swap_path: &SwapPath, amount_in: u64, now: u64) -> (r:
        Result<SwapQuote, SwapError>)
        ensures
            match spec_route_output(
                swap_path.token_in@,
                views(swap_path.intermediate_tokens@),
                swap_path.token_out@,
                dex_config.fee_tier,
                amount_in,
            ) {
                Err(e) => r == Err::<SwapQuote, SwapError>(e),
                Ok((out, imp)) => r matches Ok(q) && {
                    &&& q.amount_in == amount_in
                    &&& q.amount_out == out
                    &&& q.price_impact == imp
                    &&& q.estimated_gas == spec_gas(
                        swap_path.intermediate_tokens@.len() as int,
                        swap_path.token_in@,
                        swap_path.token_out@,
                    )
                    &&& q.route.same_as(*swap_path)
                    &&& q.valid_until == sat_add(now as int, QUOTE_VALIDITY_DURATION as int)
                },
            },
    {
        let fee = dex_config.fee_tier;
        let ghost mids = views(swap_path.intermediate_tokens@);
        let mut current_amount: u64 = amount_in;
        let mut total_price_impact: u32 = 0;
        if swap_path.intermediate_tokens.len() == 0 {
            let pool_info = match Self::get_pool_info(dex_config, &swap_path.token_in, &swap_path.token_out, now) {
                Ok(p) => p,
                Err(e) => {
                    return Err(e);
                },
            };
            match Self::calculate_swap_output(&pool_info, current_amount, true) {
                Ok((amount_out, price_impact)) => {
                    current_amount = amount_out;
                    total_price_impact = price_impact;
                },
                Err(e) => {
                    return Err(e);
                },
            }
        } else {
            let mut current_token: String = swap_path.token_in.clone();
            assert(mids.skip(0) =~= mids);
            let mut k: usize = 0;
            while k < swap_path.intermediate_tokens.len()
                invariant
                    k <= swap_path.intermediate_tokens@.len(),
                    mids == views(swap_path.intermediate_tokens@),
                    fee == dex_config.fee_tier,
                    spec_multi_hop(swap_path.token_in@, mids, fee, amount_in, 0) == spec_multi_hop(
                        current_token@,
                        mids.skip(k as int),
                        fee,
                        current_amount,
                        total_price_impact,
                    ),
                decreases swap_path.intermediate_tokens@.len() - k,
            {
                let intermediate = &swap_path.intermediate_tokens[k];
                assert(mids.skip(k as int)[0] == intermediate@);
                assert(mids.skip(k as int).drop_first() =~= mids.skip(k as int + 1));
                let pool_info = match Self::get_pool_info(dex_config, &current_token, intermediate, now) {
                    Ok(p) => p,
                    Err(e) => {
                        return Err(e);
                    },
                };
                match Self::calculate_swap_output(&pool_info, current_amount, true) {
                    Ok((amount_out, price_impact)) => {
                        current_amount = amount_out;
                        total_price_impact = total_price_impact.saturating_add(price_impact);
                    },
                    Err(e) => {
                        return Err(e);
                    },
                }
                current_token = intermediate.clone();
                k += 1;
            }
            assert(mids.skip(k as int) =~= Seq::<Seq<char>>::empty());
            let pool_info = match Self::get_pool_info(dex_config, &current_token, &swap_path.token_out, now) {
                Ok(p) => p,
                Err(e) => {
                    return Err(e);
                },
            };
            match Self::calculate_swap_output(&pool_info, current_amount, true) {
                Ok((amount_out, price_impact)) => {
                    current_amount = amount_out;
                    total_price_impact = total_price_impact.saturating_add(price_impact);
                },
                Err(e) => {
                    return Err(e);
                },
            }
        }
        let params = SwapParams {
            token_in: swap_path.token_in.clone(),
            token_out: swap_path.token_out.clone(),
            amount_in,
            amount_out_min: current_amount,
            to: String::new(),
            deadline: now.saturating_add(SWAP_DEADLINE_WINDOW),
        };
        let estimated_gas = Self::estimate_gas(&params, swap_path);
        Ok(
            SwapQuote {
                amount_in,
                amount_out: current_amount,
                price_impact: total_price_impact,
                estimated_gas,
                route: swap_path.duplicate(),
                valid_until: now.saturating_add(QUOTE_VALIDITY_DURATION),
            },
        )
    }

    /// What `get_swap_quote` answers.
    pub open spec fn spec_get_swap_quote(
        r: Result<SwapQuote, SwapError>,
        dex_config: DexConfig,
        listed: Option<Seq<Seq<char>>>,
        token_in: String,
        token_out: String,
        amount_in: u64,
        now: u64,
    ) -> bool {
        match spec_quote_outcome(listed, token_in@, token_out@, dex_config.fee_tier, amount_in) {
            Err(e) => r == Err::<SwapQuote, SwapError>(e),
            Ok((mids, out, imp)) => r matches Ok(q) && {
                &&& q.amount_in == amount_in
                &&& q.amount_out == out
                &&& q.price_impact == imp
                &&& q.estimated_gas == spec_gas(mids.len() as int, token_in@, token_out@)
                &&& path_is(q.route, token_in@, token_out@, mids)
                &&& q.valid_until == sat_add(now as int, QUOTE_VALIDITY_DURATION as int)
            },
        }
    }

    /// Validates the request, finds a route through the listed pools and quotes it at
    /// `now`.
    pub fn get_swap_quote(
        dex_config: &DexConfig,
        listed_pools: &Option<Vec<String>>,
        token_in: &String,
        token_out: &String,
        amount_in: u64,
        now: u64,
    ) -> (r: Result<SwapQuote, SwapError>)
        ensures
            Self::spec_get_swap_quote(
                r,
                *dex_config,
                listing_view(*listed_pools),
                *token_in,
                *token_out,
                amount_in,
                now,
            ),
    {
        match Self::validate_swap_params(token_in, token_out, amount_in) {
            Ok(()) => {},
            Err(e) => {
                return Err(e);
            },
        }
        let swap_path = match Self::find_optimal_path(token_in, token_out, listed_pools) {
            Ok(p) => p,
            Err(e) => {
                return Err(e);
            },
        };
        proof {
            assert(swap_path.intermediate_tokens@.len() == views(swap_path.intermediate_tokens@).len());
        }
        Self::calculate_swap_quote(dex_config, &swap_path, amount_in, now)
    }

    fn failed_result(error: SwapError) -> (r: SwapResult)
        ensures
            !r.success,
            r.amount_in == 0,
            r.amount_out == 0,
            r.actual_price_impact == 0,
            r.gas_used == 0,
            r.transaction_hash@ == ""@,
            r.error_message == Some(error),
    {
        SwapResult {
            success: false,
            amount_in: 0,
            amount_out: 0,
            actual_price_impact: 0,
            gas_used: 0,
            transaction_hash: String::from_str(""),
            error_message: Some(error),
        }
    }

    /// Validates and quotes the swap, refuses it when the quote is under the minimum
    /// output, and otherwise performs it. Failures are reported in the result.
    pub fn execute_swap(
        dex_config: &DexConfig,
        listed_pools: &Option<Vec<String>>,
        swap_params: &SwapParams,
        now: u64,
    ) -> (r: SwapResult)
        ensures
            result_reports(
                r,
                *swap_params,
                spec_execute_outcome(listing_view(*listed_pools), *swap_params, dex_config.fee_tier, now),
            ),
    {
        match Self::validate_swap_execution(swap_params, now) {
            Ok(()) => {},
            Err(e) => {
                return Self::failed_result(e);
            },
        }
        let quote = match Self::get_swap_quote(
            dex_config,
            listed_pools,
            &swap_params.token_in,
            &swap_params.token_out,
            swap_params.amount_in,
            now,
        ) {
            Ok(q) => q,
            Err(e) => {
                return Self::failed_result(e);
            },
        };
        if quote.amount_out < swap_params.amount_out_min {
            return Self::failed_result(SwapError::SlippageExceeded);
        }
        proof {
            assert(quote.route.intermediate_tokens@.len() == views(quote.route.intermediate_tokens@).len());
        }
        match Self::perform_swap_execution(swap_params, &quote) {
            Ok(result) => result,
            Err(e) => Self::failed_result(e),
        }
    }

    /// The stand-in DEX fills the quote exactly, using a tenth more gas than estimated.
    fn perform_swap_execution(swap_params: &SwapParams, quote: &SwapQuote) -> (r: Result<SwapResult, SwapError>)
        ensures
            r matches Ok(res) && {
                &&& res.success
                &&& res.amount_in == swap_params.amount_in
                &&& res.amount_out == quote.amount_out
                &&& res.actual_price_impact == quote.price_impact
                &&& res.gas_used == sat_add(quote.estimated_gas as int, (quote.estimated_gas / 10) as int)
                &&& res.transaction_hash@ == "simulated_tx_hash"@
                &&& res.error_message == None::<SwapError>
            },
    {
        let gas_used = quote.estimated_gas.saturating_add(quote.estimated_gas / 10);
        Ok(
            SwapResult {
                success: true,
                amount_in: swap_params.amount_in,
                amount_out: quote.amount_out,
                actual_price_impact: quote.price_impact,
                gas_used,
                transaction_hash: String::from_str("simulated_tx_hash"),
                error_message: None,
            },
        )
    }
}

/// Default settings and their validation.
pub struct DexConfigManager;

impl DexConfigManager {
    pub open spec fn spec_validate_config(config: DexConfig) -> Result<(), SwapError> {
        if config.fee_tier > MAX_FEE_TIER {
            Err(SwapError::FeeTooHigh)
        } else if config.min_liquidity == 0 {
            Err(SwapError::InvalidMinLiquidity)
        } else if config.max_slippage_tolerance > 5000 {
            Err(SwapError::SlippageToleranceTooHigh)
        } else {
            Ok(())
        }
    }

    pub open spec fn spec_default_config(dex_address: String) -> DexConfig {
        DexConfig {
            dex_contract_address: dex_address,
            router_address: None,
            factory_address: None,
            fee_tier: DEFAULT_FEE_TIER,
            min_liquidity: DEFAULT_MIN_LIQUIDITY,
            max_slippage_tolerance: DEFAULT_MAX_SLIPPAGE,
        }
    }

    /// A 0.3% fee tier, a minimum pool reserve of 100k native units and a 10% slippage
    /// tolerance.
    pub fn create_default_config(dex_address: String) -> (r: DexConfig)
        ensures
            r == Self::spec_default_config(dex_address),
    {
        DexConfig {
            dex_contract_address: dex_address,
            router_address: None,
            factory_address: None,
            fee_tier: DEFAULT_FEE_TIER,
            min_liquidity: DEFAULT_MIN_LIQUIDITY,
            max_slippage_tolerance: DEFAULT_MAX_SLIPPAGE,
        }
    }

    /// Fee at most 10%, a nonzero minimum liquidity, slippage tolerance at most 50%.
    pub fn validate_config(config: &DexConfig) -> (r: Result<(), SwapError>)
        ensures
            r == (if config.fee_tier > MAX_FEE_TIER {
                Err(SwapError::FeeTooHigh)
            } else if config.min_liquidity == 0 {
                Err(SwapError::InvalidMinLiquidity)
            } else if config.max_slippage_tolerance > 5000 {
                Err(SwapError::SlippageToleranceTooHigh)
            } else {
                Ok(())
            }),
    {
        if config.fee_tier > MAX_FEE_TIER {
            return Err(SwapError::FeeTooHigh);
        }
        if config.min_liquidity == 0 {
            return Err(SwapError::InvalidMinLiquidity);
        }
        if config.max_slippage_tolerance > 5000 {
            return Err(SwapError::SlippageToleranceTooHigh);
        }
        Ok(())
    }
}

} // verus!
