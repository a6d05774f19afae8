use vstd::prelude::*;
use crate::util::{sat_add, sat_sub};
use crate::error::SwapError;

verus! {

/// The predicate over the current price that makes a condition fire.
#[derive(Clone, Copy, Debug, PartialEq, Eq, Structural)]
pub enum SwapConditionType {
    /// Fires once the price has risen by this many percent over the reference.
    PercentageIncrease(u32),
    /// Fires once the price has fallen by this many percent under the reference.
    PercentageDecrease(u32),
    /// Fires while the price is within 0.1% of this target.
    TargetPrice(u64),
    /// Fires while the price is strictly above this threshold.
    PriceAbove(u64),
    /// Fires while the price is strictly below this threshold.
    PriceBelow(u64),
}

/// Lifecycle state of a condition. Every state but `Active` is terminal.
#[derive(Clone, Copy, Debug, PartialEq, Eq, Structural)]
pub enum SwapStatus {
    Active,
    Executed,
    Cancelled,
    Failed,
    Expired,
}

/// A standing conditional order.
#[derive(Debug, PartialEq, Eq)]
pub struct SwapCondition {
    pub id: u64,
    pub owner: String,
    pub source_asset: String,
    pub destination_asset: String,
    pub condition_type: SwapConditionType,
    pub amount_to_swap: u64,
    /// Slippage protection for the swap.
    pub min_amount_out: u64,
    /// Maximum allowed slippage in basis points.
    pub max_slippage: u32,
    /// Price of the source asset when the condition was created.
    pub reference_price: u64,
    pub created_at: u64,
    pub expires_at: u64,
    pub status: SwapStatus,
    pub last_check: u64,
    pub execution_count: u32,
    /// Zero means unlimited.
    pub max_executions: u32,
}

impl Clone for SwapCondition {
    fn clone(&self) -> (r: Self)
        ensures
            r == *self,
    {
        SwapCondition {
            id: self.id,
            owner: self.owner.clone(),
            source_asset: self.source_asset.clone(),
            destination_asset: self.destination_asset.clone(),
            condition_type: self.condition_type,
            amount_to_swap: self.amount_to_swap,
            min_amount_out: self.min_amount_out,
            max_slippage: self.max_slippage,
            reference_price: self.reference_price,
            created_at: self.created_at,
            expires_at: self.expires_at,
            status: self.status,
            last_check: self.last_check,
            execution_count: self.execution_count,
            max_executions: self.max_executions,
        }
    }
}

/// The record of one realized trigger.
#[derive(Debug, PartialEq, Eq)]
pub struct SwapExecution {
    pub condition_id: u64,
    pub executed_at: u64,
    pub execution_price: u64,
    pub amount_in: u64,
    pub amount_out: u64,
    /// In basis points.
    pub actual_slippage: u32,
    pub gas_used: u64,
    pub tx_hash: String,
    /// Why the swap was not done; `None` when it was.
    pub failure_reason: Option<SwapError>,
}

impl Clone for SwapExecution {
    fn clone(&self) -> (r: Self)
        ensures
            r == *self,
    {
        SwapExecution {
            condition_id: self.condition_id,
            executed_at: self.executed_at,
            execution_price: self.execution_price,
            amount_in: self.amount_in,
            amount_out: self.amount_out,
            actual_slippage: self.actual_slippage,
            gas_used: self.gas_used,
            tx_hash: self.tx_hash.clone(),
            failure_reason: self.failure_reason,
        }
    }
}

/// A user's request to register a condition.
#[derive(Debug, PartialEq, Eq)]
pub struct CreateSwapRequest {
    pub source_asset: String,
    pub destination_asset: String,
    pub condition_type: SwapConditionType,
    pub amount_to_swap: u64,
    pub max_slippage: u32,
    pub expires_at: u64,
    pub max_executions: u32,
}

impl Clone for CreateSwapRequest {
    fn clone(&self) -> (r: Self)
        ensures
            r == *self,
    {
        CreateSwapRequest {
            source_asset: self.source_asset.clone(),
            destination_asset: self.destination_asset.clone(),
            condition_type: self.condition_type,
            amount_to_swap: self.amount_to_swap,
            max_slippage: self.max_slippage,
            expires_at: self.expires_at,
            max_executions: self.max_executions,
        }
    }
}

/// A validation failure: a numeric code and its symbolic reason.
#[derive(Clone, Copy, Debug, PartialEq, Eq, Structural)]
pub struct SwapValidationError {
    pub error_code: u32,
    pub message: SwapError,
}

pub open spec fn verr(error_code: u32, message: SwapError) -> SwapValidationError {
    SwapValidationError { error_code, message }
}

/// 50% maximum slippage.
pub const MAX_SLIPPAGE_BASIS_POINTS: u32 = 5000;
/// 0.01% minimum slippage.
pub const MIN_SLIPPAGE_BASIS_POINTS: u32 = 1;
/// 1M units of the native asset, 7 decimals.
pub const MAX_SWAP_AMOUNT: u64 = 10_000_000_000_000;
/// 1 unit of the native asset, 7 decimals.
pub const MIN_SWAP_AMOUNT: u64 = 10_000_000;
/// One year.
pub const MAX_CONDITION_LIFETIME: u64 = 31_536_000;
/// One minute.
pub const MIN_CONDITION_LIFETIME: u64 = 60;
pub const MAX_PERCENTAGE_CHANGE: u32 = 10000;
pub const MIN_PERCENTAGE_CHANGE: u32 = 1;

/// Minimum output for `amount_in` after a basis-point slippage discount.
pub open spec fn spec_min_amount_out(amount_in: u64, max_slippage: u32) -> int {
    amount_in * sat_sub(10000, max_slippage as int) / 10000
}

/// Shortfall of `actual` against `expected` in basis points; zero when there is none.
pub open spec fn spec_slippage(expected: u64, actual: u64) -> int {
    if expected == 0 || actual >= expected {
        0
    } else {
        (expected - actual) * 10000 / expected as int
    }
}

impl SwapConditionType {
    /// Whether `price` fires this predicate, given the reference price.
    pub open spec fn fires(self, reference_price: u64, price: u64) -> bool {
        let r = reference_price as int;
        match self {
            SwapConditionType::PercentageIncrease(p) => price >= r + r * p / 100,
            SwapConditionType::PercentageDecrease(p) => {
                r * p / 100 <= r && price <= r - r * p / 100
            },
            SwapConditionType::TargetPrice(t) => t - t / 1000 <= price <= t + t / 1000,
            SwapConditionType::PriceAbove(t) => price > t,
            SwapConditionType::PriceBelow(t) => price < t,
        }
    }
}

impl SwapCondition {
    /// The condition a request becomes at creation.
    pub open spec fn spec_new(
        id: u64,
        owner: String,
        request: CreateSwapRequest,
        reference_price: u64,
        now: u64,
    ) -> SwapCondition {
        SwapCondition {
            id,
            owner,
            source_asset: request.source_asset,
            destination_asset: request.destination_asset,
            condition_type: request.condition_type,
            amount_to_swap: request.amount_to_swap,
            min_amount_out: spec_min_amount_out(request.amount_to_swap, request.max_slippage) as u64,
            max_slippage: request.max_slippage,
            reference_price,
            created_at: now,
            expires_at: request.expires_at,
            status: SwapStatus::Active,
            last_check: now,
            execution_count: 0,
            max_executions: request.max_executions,
        }
    }

    /// Whether the condition may still be evaluated at time `now`, and if not, why.
    pub open spec fn spec_is_valid(self, now: u64) -> Result<(), SwapValidationError> {
        if now > self.expires_at {
            Err(verr(1001, SwapError::ConditionExpired))
        } else if self.max_executions == 1 && self.execution_count >= 1 {
            Err(verr(1002, SwapError::AlreadyExecuted))
        } else if self.max_executions > 0 && self.execution_count >= self.max_executions {
            Err(verr(1003, SwapError::ExecutionLimitReached))
        } else {
            match self.status {
                SwapStatus::Cancelled => Err(verr(1004, SwapError::ConditionCancelled)),
                SwapStatus::Failed => Err(verr(1005, SwapError::ConditionFailed)),
                SwapStatus::Expired => Err(verr(1006, SwapError::ConditionExpired)),
                _ => Ok(()),
            }
        }
    }

    pub open spec fn spec_should_execute(self, price: u64) -> bool {
        self.condition_type.fires(self.reference_price, price)
    }

    /// The condition after one successful execution at time `now`.
    pub open spec fn spec_after_execution(self, now: u64) -> SwapCondition {
        let count = sat_add(self.execution_count as int, 1);
        let count = if count > u32::MAX as int { u32::MAX as int } else { count };
        SwapCondition {
            execution_count: count as u32,
            last_check: now,
            status: if self.max_executions > 0 && count >= self.max_executions {
                SwapStatus::Executed
            } else {
                self.status
            },
            ..self
        }
    }

    pub open spec fn with_status(self, status: SwapStatus) -> SwapCondition {
        SwapCondition { status, ..self }
    }

    /// Builds an `Active` condition from a request, with `now` as creation and check time.
    pub fn new(id: u64, owner: String, request: CreateSwapRequest, reference_price: u64, now: u64) -> (r: Self)
        ensures
            r == Self::spec_new(id, owner, request, reference_price, now),
    {
        let min_amount_out = Self::calculate_min_amount_out(
            request.amount_to_swap,
            reference_price,
            request.max_slippage,
        );
        SwapCondition {
            id,
            owner,
            source_asset: request.source_asset,
            destination_asset: request.destination_asset,
            condition_type: request.condition_type,
            amount_to_swap: request.amount_to_swap,
            min_amount_out,
            max_slippage: request.max_slippage,
            reference_price,
            created_at: now,
            expires_at: request.expires_at,
            status: SwapStatus::Active,
            last_check: now,
            execution_count: 0,
            max_executions: request.max_executions,
        }
    }

    /// Fails when the condition is expired at `now`, has used up its executions, or has
    /// been cancelled, failed or expired; succeeds otherwise.
    pub fn is_valid(&self, now: u64) -> (r: Result<(), SwapValidationError>)
        ensures
            r == self.spec_is_valid(now),
    {
        if now > self.expires_at {
            return Err(SwapValidationError { error_code: 1001, message: SwapError::ConditionExpired });
        }
        if self.max_executions == 1 && self.execution_count >= 1 {
            return Err(SwapValidationError { error_code: 1002, message: SwapError::AlreadyExecuted });
        }
        if self.max_executions > 0 && self.execution_count >= self.max_executions {
            return Err(
                SwapValidationError { error_code: 1003, message: SwapError::ExecutionLimitReached },
            );
        }
        match self.status {
            SwapStatus::Cancelled => Err(
                SwapValidationError { error_code: 1004, message: SwapError::ConditionCancelled },
            ),
            SwapStatus::Failed => Err(
                SwapValidationError { error_code: 1005, message: SwapError::ConditionFailed },
            ),
            SwapStatus::Expired => Err(
                SwapValidationError { error_code: 1006, message: SwapError::ConditionExpired },
            ),
            _ => Ok(()),
        }
    }

    /// Whether `current_price` fires the condition's predicate.
    pub fn should_execute(&self, current_price: u64) -> (r: bool)
        ensures
            r == self.spec_should_execute(current_price),
    {
        let r: u128 = self.reference_price as u128;
        let price: u128 = current_price as u128;
        match self.condition_type {
            SwapConditionType::PercentageIncrease(p) => {
                proof {
                    assert(r * (p as u128) <= 0xffff_ffff_ffff_ffffu128 * 0xffff_ffffu128)
                        by (nonlinear_arith)
                        requires r <= 0xffff_ffff_ffff_ffffu128, p <= 0xffff_ffffu32;
                }
                let increase: u128 = r * (p as u128) / 100;
                price >= r + increase
            },
            SwapConditionType::PercentageDecrease(p) => {
                proof {
                    assert(r * (p as u128) <= 0xffff_ffff_ffff_ffffu128 * 0xffff_ffffu128)
                        by (nonlinear_arith)
                        requires r <= 0xffff_ffff_ffff_ffffu128, p <= 0xffff_ffffu32;
                }
                let decrease: u128 = r * (p as u128) / 100;
                decrease <= r && price <= r - decrease
            },
            SwapConditionType::TargetPrice(t) => {
                let tolerance: u128 = (t as u128) / 1000;
                price >= (t as u128) - tolerance && price <= (t as u128) + tolerance
            },
            SwapConditionType::PriceAbove(t) => current_price > t,
            SwapConditionType::PriceBelow(t) => current_price < t,
        }
    }

    /// Output expected for the whole amount at `current_price`, after the slippage
    /// discount; held at `u64::MAX`.
    pub fn calculate_expected_output(&self, current_price: u64) -> (r: u64)
        requires
            self.reference_price > 0,
        ensures
            r as int == ({
                let e = (self.amount_to_swap * current_price / self.reference_price as int) * sat_sub(
                    10000,
                    self.max_slippage as int,
                ) / 10000;
                if e > u64::MAX as int { u64::MAX as int } else { e }
            }),
    {
        let a: u128 = self.amount_to_swap as u128;
        let p: u128 = current_price as u128;
        proof {
            assert(a * p <= 0xffff_ffff_ffff_ffffu128 * 0xffff_ffff_ffff_ffffu128) by (nonlinear_arith)
                requires a <= 0xffff_ffff_ffff_ffffu128, p <= 0xffff_ffff_ffff_ffffu128;
        }
        let base: u128 = a * p / (self.reference_price as u128);
        let factor: u128 = if self.max_slippage >= 10000 { 0 } else { (10000 - self.max_slippage) as u128 };
        if factor == 0 {
            return 0;
        }
        if base > 0xffff_ffff_ffff_ffffu128 * 10000 {
            proof {
                assert(base * factor / 10000 >= base / 10000) by (nonlinear_arith)
                    requires factor >= 1;
            }
            return u64::MAX;
        }
        proof {
            assert(base * factor <= 0xffff_ffff_ffff_ffffu128 * 10000 * 10000) by (nonlinear_arith)
                requires base <= 0xffff_ffff_ffff_ffffu128 * 10000, factor <= 10000;
        }
        let e: u128 = base * factor / 10000;
        if e > u64::MAX as u128 { u64::MAX } else { e as u64 }
    }

    /// Records one successful execution at `now`; a limited condition that reaches its
    /// limit becomes `Executed`, an unlimited one never does.
    pub fn update_execution(&mut self, now: u64, execution: &SwapExecution)
        ensures
            *final(self) == old(self).spec_after_execution(now),
    {
        self.execution_count = self.execution_count.saturating_add(1);
        self.last_check = now;
        if self.max_executions > 0 && self.execution_count >= self.max_executions {
            self.status = SwapStatus::Executed;
        }
    }

    pub fn cancel(&mut self)
        ensures
            *final(self) == old(self).with_status(SwapStatus::Cancelled),
    {
        self.status = SwapStatus::Cancelled;
    }

    pub fn mark_as_failed(&mut self)
        ensures
            *final(self) == old(self).with_status(SwapStatus::Failed),
    {
        self.status = SwapStatus::Failed;
    }

    /// Expires the condition only when `now` is past its expiry.
    pub fn mark_as_expired(&mut self, now: u64)
        ensures
            *final(self) == if now > old(self).expires_at {
                old(self).with_status(SwapStatus::Expired)
            } else {
                *old(self)
            },
    {
        if now > self.expires_at {
            self.status = SwapStatus::Expired;
        }
    }

    /// `amount_in` discounted by `max_slippage` basis points. The reference price cancels
    /// out of the reference-implied output.
    pub fn calculate_min_amount_out(amount_in: u64, reference_price: u64, max_slippage: u32) -> (r: u64)
        ensures
            r == spec_min_amount_out(amount_in, max_slippage),
            r <= amount_in,
    {
        let factor: u64 = if max_slippage >= 10000 { 0 } else { (10000 - max_slippage) as u64 };
        let a: u128 = amount_in as u128;
        proof {
            assert(a * (factor as u128) <= 0xffff_ffff_ffff_ffffu128 * 10000) by (nonlinear_arith)
                requires a <= 0xffff_ffff_ffff_ffffu128, factor <= 10000;
            assert(a * (factor as u128) / 10000 <= a) by (nonlinear_arith)
                requires factor <= 10000;
        }
        (a * (factor as u128) / 10000) as u64
    }
}

impl CreateSwapRequest {
    /// The first rule the request breaks at time `now`, if any.
    pub open spec fn spec_validate(self, now: u64) -> Result<(), SwapValidationError> {
        let lifetime = sat_sub(self.expires_at as int, now as int);
        if self.amount_to_swap < MIN_SWAP_AMOUNT {
            Err(verr(2001, SwapError::AmountTooSmall))
        } else if self.amount_to_swap > MAX_SWAP_AMOUNT {
            Err(verr(2002, SwapError::AmountTooLarge))
        } else if self.max_slippage < MIN_SLIPPAGE_BASIS_POINTS {
            Err(verr(2003, SwapError::SlippageTooLow))
        } else if self.max_slippage > MAX_SLIPPAGE_BASIS_POINTS {
            Err(verr(2004, SwapError::SlippageTooHigh))
        } else if lifetime < MIN_CONDITION_LIFETIME {
            Err(verr(2005, SwapError::LifetimeTooShort))
        } else if lifetime > MAX_CONDITION_LIFETIME {
            Err(verr(2006, SwapError::LifetimeTooLong))
        } else if self.source_asset@ == self.destination_asset@ {
            Err(verr(2007, SwapError::SameAssets))
        } else {
            self.spec_validate_condition_type()
        }
    }

    /// Percentages must lie in `[1, 10000]`; prices and thresholds must be nonzero.
    pub open spec fn spec_validate_condition_type(self) -> Result<(), SwapValidationError> {
        match self.condition_type {
            SwapConditionType::PercentageIncrease(p) => if p < MIN_PERCENTAGE_CHANGE || p
                > MAX_PERCENTAGE_CHANGE {
                Err(verr(2101, SwapError::InvalidPercentage))
            } else {
                Ok(())
            },
            SwapConditionType::PercentageDecrease(p) => if p < MIN_PERCENTAGE_CHANGE || p
                > MAX_PERCENTAGE_CHANGE {
                Err(verr(2102, SwapError::InvalidPercentage))
            } else {
                Ok(())
            },
            SwapConditionType::TargetPrice(t) => if t == 0 {
                Err(verr(2103, SwapError::InvalidTargetPrice))
            } else {
                Ok(())
            },
            SwapConditionType::PriceAbove(t) => if t == 0 {
                Err(verr(2104, SwapError::InvalidPriceThreshold))
            } else {
                Ok(())
            },
            SwapConditionType::PriceBelow(t) => if t == 0 {
                Err(verr(2105, SwapError::InvalidPriceThreshold))
            } else {
                Ok(())
            },
        }
    }

    /// Checks, in order, amount, slippage, lifetime (expiry in the past counts as zero
    /// lifetime), distinct assets and the condition type's parameter.
    pub fn validate(&self, now: u64) -> (r: Result<(), SwapValidationError>)
        ensures
            r == self.spec_validate(now),
    {
        if self.amount_to_swap < MIN_SWAP_AMOUNT {
            return Err(SwapValidationError { error_code: 2001, message: SwapError::AmountTooSmall });
        }
        if self.amount_to_swap > MAX_SWAP_AMOUNT {
            return Err(SwapValidationError { error_code: 2002, message: SwapError::AmountTooLarge });
        }
        if self.max_slippage < MIN_SLIPPAGE_BASIS_POINTS {
            return Err(SwapValidationError { error_code: 2003, message: SwapError::SlippageTooLow });
        }
        if self.max_slippage > MAX_SLIPPAGE_BASIS_POINTS {
            return Err(SwapValidationError { error_code: 2004, message: SwapError::SlippageTooHigh });
        }
        let lifetime = self.expires_at.saturating_sub(now);
        if lifetime < MIN_CONDITION_LIFETIME {
            return Err(SwapValidationError { error_code: 2005, message: SwapError::LifetimeTooShort });
        }
        if lifetime > MAX_CONDITION_LIFETIME {
            return Err(SwapValidationError { error_code: 2006, message: SwapError::LifetimeTooLong });
        }
        if self.source_asset == self.destination_asset {
            return Err(SwapValidationError { error_code: 2007, message: SwapError::SameAssets });
        }
        self.validate_condition_type()
    }

    fn validate_condition_type(&self) -> (r: Result<(), SwapValidationError>)
        ensures
            r == self.spec_validate_condition_type(),
    {
        match self.condition_type {
            SwapConditionType::PercentageIncrease(p) => {
                if p < MIN_PERCENTAGE_CHANGE || p > MAX_PERCENTAGE_CHANGE {
                    return Err(
                        SwapValidationError { error_code: 2101, message: SwapError::InvalidPercentage },
                    );
                }
            },
            SwapConditionType::PercentageDecrease(p) => {
                if p < MIN_PERCENTAGE_CHANGE || p > MAX_PERCENTAGE_CHANGE {
                    return Err(
                        SwapValidationError { error_code: 2102, message: SwapError::InvalidPercentage },
                    );
                }
            },
            SwapConditionType::TargetPrice(t) => {
                if t == 0 {
                    return Err(
                        SwapValidationError { error_code: 2103, message: SwapError::InvalidTargetPrice },
                    );
                }
            },
            SwapConditionType::PriceAbove(t) => {
                if t == 0 {
                    return Err(
                        SwapValidationError {
                            error_code: 2104,
                            message: SwapError::InvalidPriceThreshold,
                        },
                    );
                }
            },
            SwapConditionType::PriceBelow(t) => {
                if t == 0 {
                    return Err(
                        SwapValidationError {
                            error_code: 2105,
                            message: SwapError::InvalidPriceThreshold,
                        },
                    );
                }
            },
        }
        Ok(())
    }
}

impl SwapExecution {
    /// Records a completed execution at `now`; the slippage is measured against
    /// `amount_in`.
    pub fn new(
        condition_id: u64,
        execution_price: u64,
        amount_in: u64,
        amount_out: u64,
        gas_used: u64,
        tx_hash: String,
        now: u64,
    ) -> (r: Self)
        ensures
            r.condition_id == condition_id,
            r.executed_at == now,
            r.execution_price == execution_price,
            r.amount_in == amount_in,
            r.amount_out == amount_out,
            r.actual_slippage == spec_slippage(amount_in, amount_out),
            r.gas_used == gas_used,
            r.tx_hash == tx_hash,
            r.failure_reason.is_none(),
    {
        let actual_slippage = SwapConditionManager::calculate_slippage(amount_in, amount_out);
        SwapExecution {
            condition_id,
            executed_at: now,
            execution_price,
            amount_in,
            amount_out,
            actual_slippage,
            gas_used,
            tx_hash,
            failure_reason: None,
        }
    }

    pub fn was_successful(&self) -> (r: bool)
        ensures
            r == (self.amount_out > 0 && self.actual_slippage <= MAX_SLIPPAGE_BASIS_POINTS),
    {
        self.amount_out > 0 && self.actual_slippage <= MAX_SLIPPAGE_BASIS_POINTS
    }
}

/// Helpers for condition bookkeeping.
pub struct SwapConditionManager;

impl SwapConditionManager {
    /// The creation time in the high 32 bits, the owner's length in characters in the low
    /// bits (for the ASCII keys of principals, the same as its length in bytes).
    pub fn generate_condition_id(owner: &String, now: u64) -> (r: u64)
        ensures
            r == ((now << 32u64) | (owner@.len() as u64)),
    {
        let n = owner.unicode_len() as u64;
        (now << 32u64) | n
    }

    /// Shortfall of `actual_amount` against `expected_amount` in basis points.
    pub fn calculate_slippage(expected_amount: u64, actual_amount: u64) -> (r: u32)
        ensures
            r == spec_slippage(expected_amount, actual_amount),
            r <= 10000,
    {
        if expected_amount == 0 {
            return 0;
        }
        if actual_amount >= expected_amount {
            return 0;
        }
        let difference: u128 = (expected_amount - actual_amount) as u128;
        let e: u128 = expected_amount as u128;
        proof {
            assert((difference as int) * 10000 / (e as int) <= 10000) by (nonlinear_arith)
                requires difference <= e, e > 0;
        }
        (difference * 10000 / e) as u32
    }

    pub fn is_slippage_acceptable(actual_slippage: u32, max_slippage: u32) -> (r: bool)
        ensures
            r == (actual_slippage <= max_slippage),
    {
        actual_slippage <= max_slippage
    }
}

/// For `PriceAbove`, a price that fires keeps firing at every higher price.
pub proof fn lemma_price_above_monotonic(c: SwapCondition, p: u64, q: u64)
    requires
        c.condition_type is PriceAbove,
        c.spec_should_execute(p),
        p < q,
    ensures
        c.spec_should_execute(q),
{
}

/// For `PercentageIncrease`, a price that fires keeps firing at every higher price.
pub proof fn lemma_percentage_increase_monotonic(c: SwapCondition, p: u64, q: u64)
    requires
        c.condition_type is PercentageIncrease,
        c.spec_should_execute(p),
        p < q,
    ensures
        c.spec_should_execute(q),
{
}

/// A condition with unlimited executions never becomes `Executed` by executing, however
/// often it has run.
pub proof fn lemma_unlimited_never_executed(c: SwapCondition, now: u64)
    requires
        c.max_executions == 0,
    ensures
        c.spec_after_execution(now).status == c.status,
{
}

/// Executing a limited condition that is still valid never takes its count past its
/// limit.
pub proof fn lemma_execution_count_within_limit(c: SwapCondition, now: u64)
    requires
        c.max_executions > 0,
        c.spec_is_valid(now) is Ok,
    ensures
        c.spec_after_execution(now).execution_count <= c.max_executions,
{
}

} // verus!
