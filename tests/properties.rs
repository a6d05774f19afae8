use smart_swap::{
    CreateSwapRequest, DexConfig, DexConfigManager, OracleConfig, OracleConfigManager, PoolInfo, PriceData,
    PriceOracleClient, SmartSwap, StellarDexIntegration, SwapCondition, SwapConditionManager, SwapConditionType,
    SwapError, SwapExecution, SwapParams, SwapStatus, SwapValidationError,
};

fn s(v: &str) -> String {
    v.to_string()
}

fn engine() -> SmartSwap {
    let mut e = SmartSwap::new();
    e.initialize(s("GADMIN"), s("GORACLE"), s("GDEX")).unwrap();
    e
}

fn request(src: &str, dst: &str, condition_type: SwapConditionType, expires_at: u64, max_executions: u32) -> CreateSwapRequest {
    CreateSwapRequest {
        source_asset: s(src),
        destination_asset: s(dst),
        condition_type,
        amount_to_swap: 100_0000000,
        max_slippage: 500,
        expires_at,
        max_executions,
    }
}

fn condition(condition_type: SwapConditionType, reference_price: u64) -> SwapCondition {
    SwapCondition {
        id: 1,
        owner: s("GOWNER"),
        source_asset: s("XLM"),
        destination_asset: s("USDC"),
        condition_type,
        amount_to_swap: 100_0000000,
        min_amount_out: 95_0000000,
        max_slippage: 500,
        reference_price,
        created_at: 0,
        expires_at: 3600,
        status: SwapStatus::Active,
        last_check: 0,
        execution_count: 0,
        max_executions: 1,
    }
}

fn pool(reserve_a: u64, reserve_b: u64, fee_rate: u32) -> PoolInfo {
    PoolInfo {
        pool_address: s("P"),
        token_a: s("A"),
        token_b: s("B"),
        reserve_a,
        reserve_b,
        total_supply: reserve_a + reserve_b,
        fee_rate,
        last_updated: 0,
    }
}

fn execution() -> SwapExecution {
    SwapExecution::new(1, 120000, 100, 95, 10, s("tx"), 5)
}

#[test]
fn created_condition_reads_back_active() {
    let mut e = engine();
    let id = e.create_swap_condition(&s("GUSER"), request("XLM", "USDC", SwapConditionType::PriceAbove(130000), 3600, 1), 7).unwrap();
    let c = e.get_condition(id).unwrap();
    assert_eq!(c.status, SwapStatus::Active);
    assert_eq!(c.execution_count, 0);
    assert!(c.min_amount_out <= c.amount_to_swap);
    assert_eq!(c.min_amount_out, 95_0000000);
    assert_eq!(c.reference_price, 120000);
    assert_eq!(c.created_at, 7);
    assert_eq!(c.last_check, 7);
    assert_eq!(e.get_user_conditions(&s("GUSER")), vec![1]);
    assert!(e.get_condition(2).is_none());
    assert!(e.get_condition(0).is_none());
}

#[test]
fn price_above_fires_at_every_higher_price() {
    let c = condition(SwapConditionType::PriceAbove(150000), 100000);
    assert!(!c.should_execute(150000));
    assert!(c.should_execute(150001));
    assert!(c.should_execute(200000));
    assert!(c.should_execute(u64::MAX));
}

#[test]
fn target_price_tolerance_band() {
    let c = condition(SwapConditionType::TargetPrice(120000), 100000);
    assert!(!c.should_execute(119879));
    assert!(c.should_execute(119880));
    assert!(c.should_execute(119900));
    assert!(c.should_execute(120100));
    assert!(c.should_execute(120120));
    assert!(!c.should_execute(120121));
}

#[test]
fn percentage_increase_threshold() {
    let c = condition(SwapConditionType::PercentageIncrease(10), 100000);
    assert!(!c.should_execute(109999));
    assert!(c.should_execute(110000));
}

#[test]
fn percentage_decrease_threshold_and_underflow() {
    let c = condition(SwapConditionType::PercentageDecrease(15), 100000);
    assert!(!c.should_execute(85001));
    assert!(c.should_execute(85000));
    let deep = condition(SwapConditionType::PercentageDecrease(150), 100000);
    assert!(!deep.should_execute(0));
    let below = condition(SwapConditionType::PriceBelow(100), 100000);
    assert!(below.should_execute(99));
    assert!(!below.should_execute(100));
}

#[test]
fn cancel_by_non_owner_fails_and_keeps_status() {
    let mut e = engine();
    let id = e.create_swap_condition(&s("GUSER"), request("XLM", "USDC", SwapConditionType::PriceAbove(130000), 3600, 1), 0).unwrap();
    assert_eq!(e.cancel_condition(&s("GOTHER"), id), Err(SwapError::NotOwner));
    assert_eq!(e.get_condition(id).unwrap().status, SwapStatus::Active);
    assert_eq!(e.get_global_stats().active_conditions_count, 1);
    assert_eq!(e.cancel_condition(&s("GUSER"), 9), Err(SwapError::ConditionNotFound));
    assert_eq!(e.cancel_condition(&s("GUSER"), id), Ok(()));
    assert_eq!(e.cancel_condition(&s("GUSER"), id), Err(SwapError::CannotCancel));
    assert_eq!(SmartSwap::new().cancel_condition(&s("GUSER"), 1), Err(SwapError::NoConditions));
}

#[test]
fn amm_quote_exact_floor_division() {
    let r = StellarDexIntegration::calculate_swap_output(&pool(10_000_000, 1_200_000, 30), 1000, true);
    let expected_out = 997u64 * 1_200_000 / (10_000_000 + 997);
    assert_eq!(expected_out, 119);
    assert_eq!(r, Ok((expected_out, 1)));
    let reversed = StellarDexIntegration::calculate_swap_output(&pool(1_200_000, 10_000_000, 30), 1000, false);
    assert_eq!(reversed, Ok((119, 1)));
    assert_eq!(
        StellarDexIntegration::calculate_swap_output(&pool(0, 5, 30), 1000, true),
        Err(SwapError::InsufficientLiquidity)
    );
}

#[test]
fn cleanup_respects_limit() {
    let mut e = engine();
    for _ in 0..5 {
        e.create_swap_condition(&s("GUSER"), request("XLM", "USDC", SwapConditionType::PriceAbove(130000), 100, 1), 0).unwrap();
    }
    assert_eq!(e.cleanup_expired_conditions(3, 500), 3);
    let expired = (1..=5u64).filter(|id| e.get_condition(*id).unwrap().status == SwapStatus::Expired).count();
    assert_eq!(expired, 3);
    assert_eq!(e.get_condition(4).unwrap().status, SwapStatus::Active);
    assert_eq!(e.get_global_stats().active_conditions_count, 2);
    assert_eq!(e.cleanup_expired_conditions(10, 500), 2);
    assert_eq!(e.get_global_stats().active_conditions_count, 0);
    assert_eq!(e.cleanup_expired_conditions(10, 500), 0);
}

#[test]
fn cleanup_spares_unexpired() {
    let mut e = engine();
    e.create_swap_condition(&s("GUSER"), request("XLM", "USDC", SwapConditionType::PriceAbove(130000), 100, 1), 0).unwrap();
    assert_eq!(e.cleanup_expired_conditions(10, 100), 0);
    assert_eq!(e.get_condition(1).unwrap().status, SwapStatus::Active);
}

#[test]
fn unlimited_condition_never_auto_executes() {
    let mut c = condition(SwapConditionType::PriceAbove(1), 100000);
    c.max_executions = 0;
    for i in 0..50u64 {
        c.update_execution(i, &execution());
    }
    assert_eq!(c.status, SwapStatus::Active);
    assert_eq!(c.execution_count, 50);
    assert_eq!(c.last_check, 49);
    c.execution_count = u32::MAX;
    c.update_execution(60, &execution());
    assert_eq!(c.execution_count, u32::MAX);
    assert_eq!(c.status, SwapStatus::Active);

    let mut limited = condition(SwapConditionType::PriceAbove(1), 100000);
    limited.max_executions = 2;
    limited.update_execution(1, &execution());
    assert_eq!(limited.status, SwapStatus::Active);
    limited.update_execution(2, &execution());
    assert_eq!(limited.status, SwapStatus::Executed);
}

#[test]
fn quote_valid_for_thirty_seconds() {
    let e = engine();
    let q = e.get_swap_quote(&s("XLM"), &s("USDC"), 100_0000000, 1_000).unwrap();
    assert_eq!(q.valid_until, 1_030);
    assert_eq!(q.route.intermediate_tokens.len(), 0);
    assert_eq!(q.route.pool_addresses, vec![s("XLM_USDC_pool")]);
    let with_fee = 100_0000000u128 * 9970 / 10000;
    let expected = with_fee * 1_200_000_000000 / (10_000_000_0000000 + with_fee);
    assert_eq!(q.amount_out as u128, expected);
    assert_eq!(q.price_impact, 0);
    assert_eq!(q.estimated_gas, 110_000);
    let q = e.get_swap_quote(&s("XLM"), &s("USDC"), 1, u64::MAX - 5).unwrap();
    assert_eq!(q.valid_until, u64::MAX);
    assert_eq!(SmartSwap::new().get_swap_quote(&s("XLM"), &s("USDC"), 1, 0), Err(SwapError::NotInitialized));
}

#[test]
fn quote_request_errors() {
    let dex = DexConfigManager::create_default_config(s("GDEX"));
    assert_eq!(StellarDexIntegration::get_swap_quote(&dex, &None, &s("XLM"), &s("XLM"), 5, 0), Err(SwapError::IdenticalTokens));
    assert_eq!(StellarDexIntegration::get_swap_quote(&dex, &None, &s("XLM"), &s("BTC"), 0, 0), Err(SwapError::ZeroAmount));
    assert_eq!(
        StellarDexIntegration::get_swap_quote(&dex, &None, &s("XLM"), &s("BTC"), 10_000_000_000_001, 0),
        Err(SwapError::AmountTooLarge)
    );
}

#[test]
fn multi_hop_quote_sums_impact() {
    let dex = DexConfigManager::create_default_config(s("GDEX"));
    let path = smart_swap::SwapPath {
        token_in: s("BTC"),
        token_out: s("USDC"),
        intermediate_tokens: vec![s("XLM")],
        pool_addresses: vec![s("BTC_XLM_pool"), s("XLM_USDC_pool")],
    };
    let q = StellarDexIntegration::calculate_swap_quote(&dex, &path, 1_0000000, 10).unwrap();
    // Each hop reads its pool from the input side: BTC into (BTC, XLM), then XLM
    // into (XLM, USDC).
    let w1 = 1_0000000u128 * 9970 / 10000;
    let out1 = w1 * 375_000_000_000_000 / (1_000_000_000 + w1);
    let imp1 = 1_0000000u128 * 10000 / 1_000_000_000;
    let w2 = out1 * 9970 / 10000;
    let out2 = w2 * 1_200_000_000_000 / (100_000_000_000_000 + w2);
    let imp2 = out1 * 10000 / 100_000_000_000_000;
    assert_eq!(q.amount_out as u128, out2);
    assert_eq!(q.price_impact as u128, imp1 + imp2);
    assert_eq!(q.estimated_gas, 100_000 + 50_000 + 20_000);
    assert_eq!(q.valid_until, 40);
}

#[test]
fn direct_path_and_pool_address() {
    let p = StellarDexIntegration::find_optimal_path(&s("ETH"), &s("BTC"), &None).unwrap();
    assert_eq!(p.token_in, s("ETH"));
    assert_eq!(p.token_out, s("BTC"));
    assert!(p.intermediate_tokens.is_empty());
    assert_eq!(p.pool_addresses, vec![s("ETH_BTC_pool")]);
}

#[test]
fn liquidity_guard() {
    let dex = DexConfigManager::create_default_config(s("GDEX"));
    // (BTC, USDC) holds 100 BTC on the input side.
    assert_eq!(StellarDexIntegration::check_liquidity(&dex, &s("BTC"), &s("USDC"), 500_000_000, 0), Ok(true));
    assert_eq!(StellarDexIntegration::check_liquidity(&dex, &s("BTC"), &s("USDC"), 500_000_001, 0), Ok(false));
    let mut strict = DexConfigManager::create_default_config(s("GDEX"));
    strict.min_liquidity = u64::MAX;
    assert_eq!(StellarDexIntegration::check_liquidity(&strict, &s("XLM"), &s("USDC"), 1, 0), Ok(false));
    let info = StellarDexIntegration::get_pool_info(&dex, &s("USDC"), &s("XLM"), 9).unwrap();
    assert_eq!(info.reserve_a, 1_200_000_000_000);
    assert_eq!(info.reserve_b, 100_000_000_000_000);
    assert_eq!(info.total_supply, 101_200_000_000_000);
    assert_eq!(info.fee_rate, 30);
    assert_eq!(info.last_updated, 9);
    assert_eq!(info.pool_address, s("USDC_XLM_pool"));
}

#[test]
fn execute_swap_outcomes() {
    let dex = DexConfigManager::create_default_config(s("GDEX"));
    let params = SwapParams {
        token_in: s("USDC"),
        token_out: s("XLM"),
        amount_in: 100_0000000,
        amount_out_min: 1,
        to: s("GUSER"),
        deadline: 300,
    };
    let ok = StellarDexIntegration::execute_swap(&dex, &None, &params, 0);
    assert!(ok.success);
    assert_eq!(ok.transaction_hash, s("simulated_tx_hash"));
    assert_eq!(ok.amount_in, 100_0000000);
    assert_eq!(ok.gas_used, 110_000 + 11_000);
    assert_eq!(ok.error_message, None);

    let late = StellarDexIntegration::execute_swap(&dex, &None, &params, 301);
    assert!(!late.success);
    assert_eq!(late.error_message, Some(SwapError::DeadlineExceeded));
    assert_eq!(late.transaction_hash, s(""));

    let mut zero_min = SwapParams { amount_out_min: 0, ..params };
    let r = StellarDexIntegration::execute_swap(&dex, &None, &zero_min, 0);
    assert_eq!(r.error_message, Some(SwapError::InvalidMinOutput));

    zero_min.amount_out_min = u64::MAX;
    let r = StellarDexIntegration::execute_swap(&dex, &None, &zero_min, 0);
    assert_eq!(r.error_message, Some(SwapError::SlippageExceeded));
    assert_eq!(r.amount_out, 0);
}

#[test]
fn check_and_execute_paths() {
    let mut e = engine();
    let user = s("GUSER");
    // Does not fire: only the check time moves.
    let idle = e.create_swap_condition(&user, request("XLM", "USDC", SwapConditionType::PriceAbove(200000), 3600, 1), 0).unwrap();
    assert_eq!(e.check_and_execute_condition(idle, 50), Ok(None));
    assert_eq!(e.get_condition(idle).unwrap().last_check, 50);
    assert_eq!(e.get_condition(idle).unwrap().status, SwapStatus::Active);

    // Fires, but the quote falls short of the minimum output: the condition fails.
    let short = e.create_swap_condition(&user, request("XLM", "USDC", SwapConditionType::PriceBelow(200000), 3600, 1), 0).unwrap();
    let ex = e.check_and_execute_condition(short, 60).unwrap().unwrap();
    assert!(!ex.was_successful());
    assert_eq!(ex.failure_reason, Some(SwapError::SlippageExceeded));
    assert_eq!(ex.amount_out, 0);
    assert_eq!(ex.execution_price, 120000);
    assert_eq!(e.get_condition(short).unwrap().status, SwapStatus::Failed);
    assert!(e.get_condition_executions(short).is_empty());
    assert_eq!(e.check_and_execute_condition(short, 61), Err(SwapError::ConditionFailed));

    // Fires and the swap fills: recorded, counted, and a single-shot condition ends.
    let fill = e.create_swap_condition(&user, request("USDC", "XLM", SwapConditionType::PriceAbove(1), 3600, 1), 0).unwrap();
    let before = e.get_global_stats();
    let ex = e.check_and_execute_condition(fill, 70).unwrap().unwrap();
    assert!(ex.was_successful());
    assert_eq!(ex.failure_reason, None);
    assert_eq!(ex.amount_in, 100_0000000);
    assert_eq!(ex.actual_slippage, 0);
    assert_eq!(ex.executed_at, 70);
    assert_eq!(e.get_condition_executions(fill), vec![ex.clone()]);
    let c = e.get_condition(fill).unwrap();
    assert_eq!(c.status, SwapStatus::Executed);
    assert_eq!(c.execution_count, 1);
    let after = e.get_global_stats();
    assert_eq!(after.total_conditions_executed, before.total_conditions_executed + 1);
    assert_eq!(after.total_volume_swapped, before.total_volume_swapped + 100_0000000);
    assert_eq!(after.active_conditions_count, before.active_conditions_count - 1);
    assert_eq!(e.check_and_execute_condition(fill, 71), Err(SwapError::AlreadyExecuted));

    // A recurring condition stays active between executions.
    let recurring = e.create_swap_condition(&user, request("USDC", "XLM", SwapConditionType::PriceAbove(1), 3600, 0), 0).unwrap();
    e.check_and_execute_condition(recurring, 80).unwrap().unwrap();
    e.check_and_execute_condition(recurring, 90).unwrap().unwrap();
    assert_eq!(e.get_condition(recurring).unwrap().status, SwapStatus::Active);
    assert_eq!(e.get_condition_executions(recurring).len(), 2);

    assert_eq!(e.check_and_execute_condition(99, 90), Err(SwapError::ConditionNotFound));
    assert_eq!(e.check_and_execute_condition(recurring, 3601), Err(SwapError::ConditionExpired));
    e.set_pause_status(&s("GADMIN"), true).unwrap();
    assert_eq!(e.check_and_execute_condition(recurring, 95), Err(SwapError::ContractPaused));
}

#[test]
fn create_refusals() {
    let mut e = engine();
    let user = s("GUSER");
    let mut small = request("XLM", "USDC", SwapConditionType::PriceAbove(1), 3600, 1);
    small.amount_to_swap = 5_0000000;
    assert_eq!(e.create_swap_condition(&user, small, 0), Err(SwapError::AmountBelowMinimum));
    let unknown = request("DOGE", "USDC", SwapConditionType::PriceAbove(1), 3600, 1);
    assert_eq!(e.create_swap_condition(&user, unknown, 0), Err(SwapError::NoHistoricalData));
    let mut big = request("BTC", "USDC", SwapConditionType::PriceAbove(1), 3600, 1);
    big.amount_to_swap = 1_000_000_000;
    assert_eq!(e.create_swap_condition(&user, big, 0), Err(SwapError::InsufficientLiquidity));
    assert_eq!(
        SmartSwap::new().create_swap_condition(&user, request("XLM", "USDC", SwapConditionType::PriceAbove(1), 3600, 1), 0),
        Err(SwapError::NotInitialized)
    );
}

#[test]
fn request_validation_errors() {
    let base = request("XLM", "USDC", SwapConditionType::PercentageIncrease(10), 3600, 1);
    let err = |r: &CreateSwapRequest, now: u64| r.validate(now).unwrap_err();
    let mut r = base.clone();
    r.amount_to_swap = 10_000_000_000_001;
    assert_eq!(err(&r, 0), SwapValidationError { error_code: 2002, message: SwapError::AmountTooLarge });
    let mut r = base.clone();
    r.amount_to_swap = 9_999_999;
    assert_eq!(err(&r, 0).error_code, 2001);
    let mut r = base.clone();
    r.max_slippage = 0;
    assert_eq!(err(&r, 0), SwapValidationError { error_code: 2003, message: SwapError::SlippageTooLow });
    let mut r = base.clone();
    r.max_slippage = 5001;
    assert_eq!(err(&r, 0).error_code, 2004);
    assert_eq!(err(&base, 3600), SwapValidationError { error_code: 2005, message: SwapError::LifetimeTooShort });
    assert_eq!(err(&base, 10_000).error_code, 2005);
    assert!(base.validate(3540).is_ok());
    let mut r = base.clone();
    r.expires_at = 31_536_001;
    assert_eq!(err(&r, 0), SwapValidationError { error_code: 2006, message: SwapError::LifetimeTooLong });
    r.expires_at = 31_536_000;
    assert!(r.validate(0).is_ok());
    let mut r = base.clone();
    r.condition_type = SwapConditionType::PercentageIncrease(10001);
    assert_eq!(err(&r, 0), SwapValidationError { error_code: 2101, message: SwapError::InvalidPercentage });
    r.condition_type = SwapConditionType::PercentageDecrease(0);
    assert_eq!(err(&r, 0).error_code, 2102);
    r.condition_type = SwapConditionType::TargetPrice(0);
    assert_eq!(err(&r, 0), SwapValidationError { error_code: 2103, message: SwapError::InvalidTargetPrice });
    r.condition_type = SwapConditionType::PriceAbove(0);
    assert_eq!(err(&r, 0), SwapValidationError { error_code: 2104, message: SwapError::InvalidPriceThreshold });
    r.condition_type = SwapConditionType::PriceBelow(0);
    assert_eq!(err(&r, 0).error_code, 2105);
    r.condition_type = SwapConditionType::PercentageDecrease(10000);
    assert!(r.validate(0).is_ok());
}

#[test]
fn condition_validity_errors() {
    let c = condition(SwapConditionType::PriceAbove(1), 100);
    assert_eq!(c.is_valid(3601).unwrap_err().error_code, 1001);
    let mut d = c.clone();
    d.execution_count = 1;
    assert_eq!(d.is_valid(0).unwrap_err(), SwapValidationError { error_code: 1002, message: SwapError::AlreadyExecuted });
    d.max_executions = 3;
    d.execution_count = 3;
    assert_eq!(d.is_valid(0).unwrap_err().message, SwapError::ExecutionLimitReached);
    let mut d = c.clone();
    d.status = SwapStatus::Failed;
    assert_eq!(d.is_valid(0).unwrap_err().error_code, 1005);
    d.status = SwapStatus::Expired;
    assert_eq!(d.is_valid(0).unwrap_err(), SwapValidationError { error_code: 1006, message: SwapError::ConditionExpired });
    d.status = SwapStatus::Cancelled;
    assert_eq!(d.is_valid(0).unwrap_err().error_code, 1004);
    d.status = SwapStatus::Executed;
    assert!(d.is_valid(0).is_ok());
}

#[test]
fn state_transitions() {
    let mut c = condition(SwapConditionType::PriceAbove(1), 100);
    c.mark_as_expired(3600);
    assert_eq!(c.status, SwapStatus::Active);
    c.mark_as_expired(3601);
    assert_eq!(c.status, SwapStatus::Expired);
    let mut c = condition(SwapConditionType::PriceAbove(1), 100);
    c.mark_as_failed();
    assert_eq!(c.status, SwapStatus::Failed);
    c.cancel();
    assert_eq!(c.status, SwapStatus::Cancelled);
}

#[test]
fn min_and_expected_output() {
    assert_eq!(SwapCondition::calculate_min_amount_out(100_0000000, 120000, 500), 95_0000000);
    assert_eq!(SwapCondition::calculate_min_amount_out(10001, 7, 1), 9999);
    assert_eq!(SwapCondition::calculate_min_amount_out(5, 7, 20000), 0);
    let c = condition(SwapConditionType::PriceAbove(1), 100000);
    assert_eq!(c.calculate_expected_output(110000), 110_0000000 * 9500 / 10000);
    let mut huge = condition(SwapConditionType::PriceAbove(1), 1);
    huge.amount_to_swap = u64::MAX;
    assert_eq!(huge.calculate_expected_output(u64::MAX), u64::MAX);
}

#[test]
fn execution_record_and_slippage() {
    let ex = SwapExecution::new(4, 120000, 1000, 900, 77, s("h"), 12);
    assert_eq!(ex.actual_slippage, 1000);
    assert_eq!(ex.executed_at, 12);
    assert!(ex.was_successful());
    let none_out = SwapExecution::new(4, 120000, 1000, 0, 77, s("h"), 12);
    assert!(!none_out.was_successful());
    assert_eq!(none_out.actual_slippage, 10000);
    assert_eq!(SwapConditionManager::calculate_slippage(0, 5), 0);
    assert_eq!(SwapConditionManager::calculate_slippage(u64::MAX, 0), 10000);
    assert!(SwapConditionManager::is_slippage_acceptable(500, 500));
    assert!(!SwapConditionManager::is_slippage_acceptable(501, 500));
    assert_eq!(SwapConditionManager::generate_condition_id(&s("GABC"), 3), (3u64 << 32) | 4);
}

#[test]
fn oracle_fallback_and_checks() {
    let config = OracleConfigManager::create_default_config(s("GORACLE"));
    let stale = PriceData { asset_symbol: s("XLM"), price: 5, timestamp: 0, confidence: 90, source_count: 1 };
    let fallback = PriceData { asset_symbol: s("XLM"), price: 7, timestamp: 10, confidence: 70, source_count: 3 };
    let r = PriceOracleClient::resolve_price(&config, 10, Ok(stale.clone()), Ok(fallback.clone()));
    assert!(r.success);
    assert_eq!(r.price_data, Some(fallback.clone()));
    let no_fallback = OracleConfig { fallback_enabled: false, ..config.clone() };
    let r = PriceOracleClient::resolve_price(&no_fallback, 10, Ok(stale.clone()), Ok(fallback.clone()));
    assert_eq!(r.error_message, Some(SwapError::InvalidPriceData));
    let r = PriceOracleClient::resolve_price(&no_fallback, 10, Err(SwapError::UnsupportedAsset), Ok(fallback.clone()));
    assert_eq!(r.error_message, Some(SwapError::UnsupportedAsset));
    assert!(r.price_data.is_none());

    let h = PriceOracleClient::get_fallback_price(&s("XLM"), 1000).price_data.unwrap();
    assert_eq!((h.price, h.timestamp, h.confidence, h.source_count), (118000, 700, 70, 3));
    let h = PriceOracleClient::get_fallback_price(&s("XLM"), 100).price_data.unwrap();
    assert_eq!(h.timestamp, 0);
    assert_eq!(PriceOracleClient::get_fallback_price(&s("DOGE"), 0).error_message, Some(SwapError::NoHistoricalData));

    let old = PriceData { asset_symbol: s("XLM"), price: 5, timestamp: 0, confidence: 90, source_count: 5 };
    assert_eq!(PriceOracleClient::validate_price_for_swap(&old, &config, 301), Err(SwapError::PriceTooOld));
    assert_eq!(PriceOracleClient::validate_price_for_swap(&old, &config, 300), Ok(()));
    let shy = PriceData { confidence: 69, ..old.clone() };
    assert_eq!(PriceOracleClient::validate_price_for_swap(&shy, &config, 0), Err(SwapError::InsufficientConfidence));
    let zero = PriceData { price: 0, ..old.clone() };
    assert_eq!(PriceOracleClient::validate_price_for_swap(&zero, &config, 0), Err(SwapError::ZeroPrice));
    assert!(!PriceOracleClient::is_price_data_valid(&stale, &config, 0));
}

#[test]
fn oracle_rates_and_impact() {
    let config = OracleConfigManager::create_default_config(s("GORACLE"));
    assert_eq!(PriceOracleClient::calculate_exchange_rate(&config, &s("XLM"), &s("USDC"), 0), Ok(1_200_000));
    assert_eq!(PriceOracleClient::calculate_exchange_rate(&config, &s("DOGE"), &s("USDC"), 0), Err(SwapError::FailedToGetPrices));
    assert_eq!(PriceOracleClient::estimate_swap_output(&config, &s("XLM"), &s("USDC"), 100_0000000, 0), Ok(120_000_000));
    assert_eq!(PriceOracleClient::get_price_impact(&config, &s("XLM"), 1, 0), Err(SwapError::ZeroLiquidity));
    assert_eq!(PriceOracleClient::get_price_impact(&config, &s("XLM"), 50, 1000), Ok(500));
    assert_eq!(PriceOracleClient::get_price_impact(&config, &s("XLM"), 900, 1000), Ok(5000));
    // XLM moved from 118000 to 120000: 169 basis points.
    assert_eq!(PriceOracleClient::is_price_stable(&config, &s("XLM"), 169, 0), Ok(true));
    assert_eq!(PriceOracleClient::is_price_stable(&config, &s("XLM"), 168, 0), Ok(false));
    assert_eq!(PriceOracleClient::is_price_stable(&config, &s("DOGE"), 168, 0), Err(SwapError::FailedToGetCurrentPrice));
    let prices = PriceOracleClient::get_multiple_prices(&config, &[s("XLM"), s("BTC")], 0).unwrap();
    assert_eq!(prices.len(), 2);
    assert_eq!(prices[1].price, 45000000000);
    assert_eq!(
        PriceOracleClient::get_multiple_prices(&config, &[s("XLM"), s("DOGE")], 0),
        Err(SwapError::NoHistoricalData)
    );
}

#[test]
fn config_validation() {
    let dex = DexConfigManager::create_default_config(s("GDEX"));
    assert_eq!(DexConfigManager::validate_config(&dex), Ok(()));
    assert_eq!(DexConfigManager::validate_config(&DexConfig { fee_tier: 1001, ..dex.clone() }), Err(SwapError::FeeTooHigh));
    assert_eq!(DexConfigManager::validate_config(&DexConfig { min_liquidity: 0, ..dex.clone() }), Err(SwapError::InvalidMinLiquidity));
    assert_eq!(
        DexConfigManager::validate_config(&DexConfig { max_slippage_tolerance: 5001, ..dex.clone() }),
        Err(SwapError::SlippageToleranceTooHigh)
    );
    let oracle = OracleConfigManager::create_default_config(s("GORACLE"));
    assert_eq!(OracleConfigManager::validate_config(&oracle), Ok(()));
    assert_eq!(
        OracleConfigManager::validate_config(&OracleConfig { max_price_age: 0, ..oracle.clone() }),
        Err(SwapError::InvalidMaxPriceAge)
    );
    assert_eq!(
        OracleConfigManager::validate_config(&OracleConfig { min_confidence: 101, ..oracle.clone() }),
        Err(SwapError::InvalidMinConfidence)
    );

    let mut e = engine();
    assert_eq!(e.update_dex_config(&s("GADMIN"), DexConfig { fee_tier: 2000, ..dex.clone() }), Err(SwapError::FeeTooHigh));
    assert_eq!(e.update_dex_config(&s("GUSER"), dex.clone()), Err(SwapError::Unauthorized));
    assert_eq!(e.update_dex_config(&s("GADMIN"), DexConfig { fee_tier: 100, ..dex.clone() }), Ok(()));
    assert_eq!(e.config().unwrap().dex_config.fee_tier, 100);
    assert_eq!(e.update_oracle_config(&s("GADMIN"), OracleConfig { min_confidence: 90, ..oracle.clone() }), Ok(()));
    assert_eq!(e.config().unwrap().oracle_config.min_confidence, 90);
    assert_eq!(SmartSwap::new().set_pause_status(&s("GADMIN"), true), Err(SwapError::NotInitialized));
}

#[test]
fn error_symbols() {
    assert_eq!(SwapError::InsufficientLiquidity.symbol(), "insufficient_liquidity");
    assert_eq!(SwapError::ConditionLimitExceeded.symbol(), "condition_limit_exceeded");
    assert_eq!(SwapError::PriceTooOld.symbol(), "price_too_old");
}

#[test]
fn multi_hop_quote_prices_last_hop_on_input_side() {
    let dex = DexConfigManager::create_default_config(s("GDEX"));
    let path = smart_swap::SwapPath {
        token_in: s("BTC"),
        token_out: s("USDC"),
        intermediate_tokens: vec![s("XLM")],
        pool_addresses: vec![s("BTC_XLM_pool"), s("XLM_USDC_pool")],
    };
    let q = StellarDexIntegration::calculate_swap_quote(&dex, &path, 1000, 0).unwrap();
    assert_eq!(q.amount_out, 4_473_019);
}

#[test]
fn path_search_through_listed_pools() {
    let listed = Some(vec![s("ETH_XLM_pool"), s("XLM_BTC_pool")]);
    let p = StellarDexIntegration::find_optimal_path(&s("ETH"), &s("BTC"), &listed).unwrap();
    assert_eq!(p.intermediate_tokens, vec![s("XLM")]);
    assert_eq!(p.pool_addresses, vec![s("ETH_XLM_pool"), s("XLM_BTC_pool")]);

    let listed = Some(vec![s("ETH_USDC_pool"), s("USDC_BTC_pool"), s("ETH_XLM_pool")]);
    let p = StellarDexIntegration::find_optimal_path(&s("ETH"), &s("BTC"), &listed).unwrap();
    assert_eq!(p.intermediate_tokens, vec![s("USDC")]);

    // XLM is an endpoint here, so it is skipped as an intermediate.
    let listed = Some(vec![s("XLM_USDC_pool"), s("USDC_BTC_pool")]);
    let p = StellarDexIntegration::find_optimal_path(&s("XLM"), &s("BTC"), &listed).unwrap();
    assert_eq!(p.intermediate_tokens, vec![s("USDC")]);

    let listed = Some(vec![s("XLM_BTC_pool"), s("ETH_BTC_pool")]);
    let p = StellarDexIntegration::find_optimal_path(&s("ETH"), &s("BTC"), &listed).unwrap();
    assert!(p.intermediate_tokens.is_empty());
    assert_eq!(p.pool_addresses, vec![s("ETH_BTC_pool")]);

    let none_listed: Option<Vec<String>> = Some(vec![]);
    assert_eq!(
        StellarDexIntegration::find_optimal_path(&s("ETH"), &s("BTC"), &none_listed),
        Err(SwapError::NoPathFound)
    );
    assert!(StellarDexIntegration::pool_exists(&s("ETH_XLM_pool"), &Some(vec![s("ETH_XLM_pool")])));
    assert!(!StellarDexIntegration::pool_exists(&s("XLM_ETH_pool"), &Some(vec![s("ETH_XLM_pool")])));
}

#[test]
fn engine_quotes_through_listed_pools() {
    let mut e = engine();
    assert_eq!(e.set_listed_pools(&s("GUSER"), Some(vec![])), Err(SwapError::Unauthorized));
    assert_eq!(e.set_listed_pools(&s("GADMIN"), Some(vec![])), Ok(()));
    assert_eq!(e.get_swap_quote(&s("XLM"), &s("USDC"), 100, 0), Err(SwapError::NoPathFound));
    e.set_listed_pools(&s("GADMIN"), Some(vec![s("ETH_XLM_pool"), s("XLM_USDC_pool")])).unwrap();
    let q = e.get_swap_quote(&s("ETH"), &s("USDC"), 100, 0).unwrap();
    assert_eq!(q.route.intermediate_tokens, vec![s("XLM")]);
    assert_eq!(e.listed_pools(), Some(vec![s("ETH_XLM_pool"), s("XLM_USDC_pool")]));
}

#[test]
fn execution_requires_a_usable_price() {
    let mut e = engine();
    let id = e
        .create_swap_condition(&s("GUSER"), request("USDC", "XLM", SwapConditionType::PriceAbove(1), 3600, 1), 0)
        .unwrap();
    let strict = OracleConfig {
        min_confidence: 90,
        ..OracleConfigManager::create_default_config(s("GORACLE"))
    };
    e.update_oracle_config(&s("GADMIN"), strict).unwrap();
    // The primary source (85%) falls short, the fallback (70%) is returned but fails
    // the check made before execution.
    assert_eq!(e.check_and_execute_condition(id, 10), Err(SwapError::InsufficientConfidence));
    assert_eq!(e.get_condition(id).unwrap().status, SwapStatus::Active);
    assert!(e.get_condition_executions(id).is_empty());
}

#[test]
fn stored_parts_need_a_configuration_for_conditions() {
    let mut e = engine();
    e.create_swap_condition(&s("GUSER"), request("XLM", "USDC", SwapConditionType::PriceAbove(1), 3600, 1), 0)
        .unwrap();
    let stats = e.get_global_stats();
    assert!(SmartSwap::from_parts(None, e.conditions(), e.all_executions(), vec![], None, stats).is_none());
    let rebuilt = SmartSwap::from_parts(e.config(), e.conditions(), e.all_executions(), vec![], None, stats).unwrap();
    assert_eq!(rebuilt.get_condition(1), e.get_condition(1));
    let mut bad = e.conditions();
    bad[0].id = 7;
    assert!(SmartSwap::from_parts(e.config(), bad, e.all_executions(), vec![], None, stats).is_none());
}

#[test]
fn error_symbols_round_trip() {
    for err in [SwapError::SlippageExceeded, SwapError::ConditionExpired, SwapError::ConditionLimitExceeded] {
        assert_eq!(SwapError::from_symbol(&err.symbol()), Some(err));
    }
    assert_eq!(SwapError::from_symbol(&s("no_such_reason")), None);
}
