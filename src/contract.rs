use vstd::prelude::*;
use crate::dex_integration::{
    listing_view, spec_execute_outcome, spec_has_liquidity, DexConfig, DexConfigManager, StellarDexIntegration, SwapParams,
    SwapQuote, SWAP_DEADLINE_WINDOW,
};
use crate::error::SwapError;
use crate::price_oracle::{
    spec_get_price, spec_query_price, spec_validate_price_for_swap, OracleConfig, OracleConfigManager, PriceOracleClient,
    PriceQueryResult,
};
use crate::swap_condition::{spec_slippage, CreateSwapRequest, SwapCondition, SwapExecution, SwapStatus};
use crate::util::{clone_strings, sat_add, sat_sub};

verus! {

/// The engine's configuration record.
#[derive(Debug, PartialEq, Eq)]
pub struct ContractConfig {
    pub admin: String,
    pub oracle_config: OracleConfig,
    pub dex_config: DexConfig,
    pub paused: bool,
    pub max_conditions_per_user: u32,
    pub min_condition_value: u64,
}

impl Clone for ContractConfig {
    fn clone(&self) -> (r: Self)
        ensures
            r == *self,
    {
        ContractConfig {
            admin: self.admin.clone(),
            oracle_config: self.oracle_config.clone(),
            dex_config: self.dex_config.clone(),
            paused: self.paused,
            max_conditions_per_user: self.max_conditions_per_user,
            min_condition_value: self.min_condition_value,
        }
    }
}

/// Aggregate counters over all conditions.
#[derive(Clone, Copy, Debug, PartialEq, Eq, Structural)]
pub struct GlobalStats {
    pub total_conditions_created: u64,
    pub total_conditions_executed: u64,
    pub total_volume_swapped: u64,
    pub total_fees_collected: u64,
    pub active_conditions_count: u64,
}

pub const DEFAULT_MAX_CONDITIONS_PER_USER: u32 = 50;
/// Ten units of the native asset, 7 decimals.
pub const DEFAULT_MIN_CONDITION_VALUE: u64 = 100_000_000;

pub open spec fn zero_stats() -> GlobalStats {
    GlobalStats {
        total_conditions_created: 0,
        total_conditions_executed: 0,
        total_volume_swapped: 0,
        total_fees_collected: 0,
        active_conditions_count: 0,
    }
}

/// The engine's state as mathematics: condition `i` has id `i + 1`, and
/// `executions[i]` is its history.
pub struct SwapModel {
    pub config: Option<ContractConfig>,
    pub conditions: Seq<SwapCondition>,
    pub executions: Seq<Seq<SwapExecution>>,
    pub supported_assets: Seq<Seq<char>>,
    /// The pools the DEX lists; `None` when it lists one for every pair.
    pub listed_pools: Option<Seq<Seq<char>>>,
    pub stats: GlobalStats,
}

impl SwapModel {
    pub open spec fn wf(self) -> bool {
        &&& self.conditions.len() == self.executions.len()
        &&& self.conditions.len() < u64::MAX
        &&& self.config.is_none() ==> self.conditions.len() == 0
        &&& forall|i: int| 0 <= i < self.conditions.len() ==> (#[trigger] self.conditions[i]).id == i + 1
    }

    /// Whether `id` names a condition.
    pub open spec fn has(self, id: u64) -> bool {
        1 <= id <= self.conditions.len()
    }

    pub open spec fn condition(self, id: u64) -> SwapCondition {
        self.conditions[id - 1]
    }

    pub open spec fn with_stats(self, stats: GlobalStats) -> SwapModel {
        SwapModel { stats, ..self }
    }

    pub open spec fn with_config(self, config: ContractConfig) -> SwapModel {
        SwapModel { config: Some(config), ..self }
    }

    pub open spec fn with_condition(self, id: u64, c: SwapCondition) -> SwapModel {
        SwapModel { conditions: self.conditions.update(id - 1, c), ..self }
    }

    /// Fails unless initialized and not paused.
    pub open spec fn not_paused(self) -> Result<(), SwapError> {
        match self.config {
            None => Err(SwapError::NotInitialized),
            Some(c) => if c.paused {
                Err(SwapError::ContractPaused)
            } else {
                Ok(())
            },
        }
    }

    /// Why `caller` may not cancel `id`, if it may not.
    pub open spec fn cancel_check(self, caller: Seq<char>, id: u64) -> Result<(), SwapError> {
        if self.config.is_none() {
            Err(SwapError::NoConditions)
        } else if !self.has(id) {
            Err(SwapError::ConditionNotFound)
        } else if self.condition(id).owner@ != caller {
            Err(SwapError::NotOwner)
        } else if self.condition(id).status != SwapStatus::Active {
            Err(SwapError::CannotCancel)
        } else {
            Ok(())
        }
    }

    /// Fails unless initialized and `caller` is the admin.
    pub open spec fn admin_check(self, caller: Seq<char>) -> Result<(), SwapError> {
        match self.config {
            None => Err(SwapError::NotInitialized),
            Some(c) => if c.admin@ != caller {
                Err(SwapError::Unauthorized)
            } else {
                Ok(())
            },
        }
    }
}

/// Ids of the conditions of `owner`, in creation order.
pub open spec fn owned_ids(conds: Seq<SwapCondition>, owner: Seq<char>) -> Seq<u64>
    decreases conds.len(),
{
    if conds.len() == 0 {
        Seq::empty()
    } else {
        let rest = owned_ids(conds.drop_last(), owner);
        if conds.last().owner@ == owner {
            rest.push(conds.last().id)
        } else {
            rest
        }
    }
}

/// Number of `Active` conditions of `owner`.
pub open spec fn active_count(conds: Seq<SwapCondition>, owner: Seq<char>) -> nat
    decreases conds.len(),
{
    if conds.len() == 0 {
        0
    } else {
        let rest = active_count(conds.drop_last(), owner);
        if conds.last().owner@ == owner && conds.last().status == SwapStatus::Active {
            rest + 1
        } else {
            rest
        }
    }
}

/// The reason a failed price query blocks an operation.
pub open spec fn unavailable_reason(q: PriceQueryResult) -> SwapError {
    match q.error_message {
        Some(e) => e,
        None => SwapError::PriceUnavailable,
    }
}

/// The reference price a request is admitted with at `now`, or why it is refused. The
/// last refusal only guards the id counter against overflow.
pub open spec fn create_outcome(m: SwapModel, caller: Seq<char>, request: CreateSwapRequest, now: u64) -> Result<
    u64,
    SwapError,
> {
    match m.not_paused() {
        Err(e) => Err(e),
        Ok(_) => match request.spec_validate(now) {
            Err(v) => Err(v.message),
            Ok(_) => {
                let c = m.config.unwrap();
                let q = spec_get_price(c.oracle_config, request.source_asset, now);
                if active_count(m.conditions, caller) >= c.max_conditions_per_user {
                    Err(SwapError::ConditionLimitExceeded)
                } else if request.amount_to_swap < c.min_condition_value {
                    Err(SwapError::AmountBelowMinimum)
                } else if !q.success {
                    Err(unavailable_reason(q))
                } else {
                    match spec_validate_price_for_swap(q.price_data.unwrap(), c.oracle_config, now) {
                        Err(e) => Err(e),
                        Ok(_) => if !spec_has_liquidity(
                            c.dex_config,
                            request.source_asset@,
                            request.destination_asset@,
                            request.amount_to_swap,
                        ) {
                            Err(SwapError::InsufficientLiquidity)
                        } else if m.conditions.len() + 1 >= u64::MAX {
                            Err(SwapError::ConditionLimitExceeded)
                        } else {
                            Ok(spec_query_price(q))
                        },
                    }
                }
            },
        },
    }
}

/// The model after a condition was created from `request` at reference `price`.
pub open spec fn after_create(m: SwapModel, caller: String, request: CreateSwapRequest, price: u64, now: u64) -> SwapModel {
    let id = (m.conditions.len() + 1) as u64;
    SwapModel {
        conditions: m.conditions.push(SwapCondition::spec_new(id, caller, request, price, now)),
        executions: m.executions.push(Seq::empty()),
        stats: GlobalStats {
            total_conditions_created: sat_add(m.stats.total_conditions_created as int, 1) as u64,
            active_conditions_count: sat_add(m.stats.active_conditions_count as int, 1) as u64,
            ..m.stats
        },
        ..m
    }
}

/// A condition that was just created reads back `Active`, never executed, with a
/// minimum output no larger than its amount.
pub proof fn lemma_created_condition_is_active(
    m: SwapModel,
    caller: String,
    request: CreateSwapRequest,
    now: u64,
)
    requires
        m.wf(),
        create_outcome(m, caller@, request, now) is Ok,
    ensures
        ({
            let id = (m.conditions.len() + 1) as u64;
            let after = after_create(m, caller, request, create_outcome(m, caller@, request, now)->Ok_0, now);
            &&& after.wf()
            &&& after.has(id)
            &&& after.condition(id).status == SwapStatus::Active
            &&& after.condition(id).execution_count == 0
            &&& after.condition(id).min_amount_out <= after.condition(id).amount_to_swap
            &&& after.condition(id).owner == caller
        }),
{
    let id = (m.conditions.len() + 1) as u64;
    let after = after_create(m, caller, request, create_outcome(m, caller@, request, now)->Ok_0, now);
    assert(after.condition(id) == after.conditions[m.conditions.len() as int]);
    let a = request.amount_to_swap as int;
    let f = crate::util::sat_sub(10000, request.max_slippage as int);
    assert(a * f / 10000 <= a) by (nonlinear_arith)
        requires 0 <= f <= 10000, a >= 0;
    assert forall|i: int| 0 <= i < after.conditions.len() implies (#[trigger] after.conditions[i]).id == i + 1 by {
        if i < m.conditions.len() {
            assert(after.conditions[i] == m.conditions[i]);
        }
    }
}

/// Cancelling by anyone but the owner of an existing condition fails as `NotOwner`,
/// and a failed cancellation changes nothing.
pub proof fn lemma_cancel_is_owner_only(m: SwapModel, caller: Seq<char>, id: u64)
    requires
        m.wf(),
        m.has(id),
        m.condition(id).owner@ != caller,
    ensures
        m.cancel_check(caller, id) == Err::<(), SwapError>(SwapError::NotOwner),
{
}

/// The current price of the source asset of condition `id`, when the condition may be
/// checked at `now` and the price passes the check made before any execution;
/// otherwise why not.
pub open spec fn check_outcome(m: SwapModel, id: u64, now: u64) -> Result<u64, SwapError> {
    match m.not_paused() {
        Err(e) => Err(e),
        Ok(_) => if !m.has(id) {
            Err(SwapError::ConditionNotFound)
        } else {
            match m.condition(id).spec_is_valid(now) {
                Err(v) => Err(v.message),
                Ok(_) => {
                    let oracle = m.config.unwrap().oracle_config;
                    let q = spec_get_price(oracle, m.condition(id).source_asset, now);
                    if !q.success {
                        Err(unavailable_reason(q))
                    } else {
                        match spec_validate_price_for_swap(q.price_data.unwrap(), oracle, now) {
                            Err(e) => Err(e),
                            Ok(_) => Ok(spec_query_price(q)),
                        }
                    }
                },
            }
        },
    }
}

/// A cancelled, failed or expired condition is terminal: checking it is refused, so the
/// check changes nothing.
pub proof fn lemma_terminal_condition_is_not_checked(m: SwapModel, id: u64, now: u64)
    requires
        m.has(id),
        m.condition(id).status == SwapStatus::Cancelled || m.condition(id).status == SwapStatus::Failed
            || m.condition(id).status == SwapStatus::Expired,
    ensures
        check_outcome(m, id, now) is Err,
{
}

/// What a triggered condition asks of the DEX at `now`.
pub open spec fn swap_params_of(c: SwapCondition, now: u64) -> SwapParams {
    SwapParams {
        token_in: c.source_asset,
        token_out: c.destination_asset,
        amount_in: c.amount_to_swap,
        amount_out_min: c.min_amount_out,
        to: c.owner,
        deadline: sat_add(now as int, SWAP_DEADLINE_WINDOW as int) as u64,
    }
}

/// Amount in, amount out, gas used and transaction reference a swap outcome reports.
pub open spec fn swap_figures(params: SwapParams, outcome: Result<(u64, u32, u64), SwapError>) -> (u64, u64, u64, Seq<char>) {
    match outcome {
        Err(_) => (0, 0, 0, ""@),
        Ok((out, _, gas)) => (params.amount_in, out, sat_add(gas as int, (gas / 10) as int) as u64, "simulated_tx_hash"@),
    }
}

/// Why a swap outcome is a failure, if it is one.
pub open spec fn failure_of(outcome: Result<(u64, u32, u64), SwapError>) -> Option<SwapError> {
    match outcome {
        Err(e) => Some(e),
        Ok(_) => None,
    }
}

/// The record `ex` reports the outcome of condition `id` triggered at `price` and `now`.
pub open spec fn records(
    ex: SwapExecution,
    id: u64,
    price: u64,
    now: u64,
    figures: (u64, u64, u64, Seq<char>),
    failure: Option<SwapError>,
) -> bool {
    &&& ex.condition_id == id
    &&& ex.executed_at == now
    &&& ex.execution_price == price
    &&& ex.amount_in == figures.0
    &&& ex.amount_out == figures.1
    &&& ex.actual_slippage == spec_slippage(figures.0, figures.1)
    &&& ex.gas_used == figures.2
    &&& ex.tx_hash@ == figures.3
    &&& ex.failure_reason == failure
}

/// The model after condition `id` was triggered and its swap reported `ex`.
pub open spec fn after_trigger(m: SwapModel, id: u64, now: u64, success: bool, ex: SwapExecution) -> SwapModel {
    let c = m.condition(id);
    let done = c.spec_after_execution(now);
    if success {
        SwapModel {
            conditions: m.conditions.update(id - 1, done),
            executions: m.executions.update(id - 1, m.executions[id - 1].push(ex)),
            stats: GlobalStats {
                total_conditions_executed: sat_add(m.stats.total_conditions_executed as int, 1) as u64,
                total_volume_swapped: sat_add(m.stats.total_volume_swapped as int, ex.amount_in as int) as u64,
                active_conditions_count: if done.status == SwapStatus::Executed {
                    sat_sub(m.stats.active_conditions_count as int, 1) as u64
                } else {
                    m.stats.active_conditions_count
                },
                ..m.stats
            },
            ..m
        }
    } else {
        m.with_condition(id, c.with_status(SwapStatus::Failed))
    }
}

/// Whether cleanup expires `c` at `now`.
pub open spec fn expirable(c: SwapCondition, now: u64) -> bool {
    c.status == SwapStatus::Active && now > c.expires_at
}

/// Number of conditions that cleanup would expire at `now`, without a limit.
pub open spec fn expirable_count(conds: Seq<SwapCondition>, now: u64) -> nat
    decreases conds.len(),
{
    if conds.len() == 0 {
        0
    } else {
        expirable_count(conds.drop_last(), now) + if expirable(conds.last(), now) {
            1nat
        } else {
            0nat
        }
    }
}

/// The conditions after a cleanup at `now` that expires at most `limit` of them, the
/// earliest created first.
pub open spec fn cleaned(conds: Seq<SwapCondition>, now: u64, limit: nat) -> Seq<SwapCondition> {
    Seq::new(
        conds.len(),
        |i: int|
            if expirable(conds[i], now) && expirable_count(conds.take(i), now) < limit {
                conds[i].with_status(SwapStatus::Expired)
            } else {
                conds[i]
            },
    )
}

/// A longer prefix holds at least as many expirable conditions.
pub proof fn lemma_expirable_count_mono(conds: Seq<SwapCondition>, now: u64, i: int, j: int)
    requires
        0 <= i <= j <= conds.len(),
    ensures
        expirable_count(conds.take(i), now) <= expirable_count(conds.take(j), now),
    decreases j - i,
{
    if i < j {
        lemma_expirable_count_mono(conds, now, i, j - 1);
        assert(conds.take(j).drop_last() =~= conds.take(j - 1));
    }
}

proof fn lemma_cleaned_prefix_count(conds: Seq<SwapCondition>, now: u64, a: nat, i: int)
    requires
        0 <= i <= conds.len(),
    ensures
        expirable_count(cleaned(conds, now, a).take(i), now) == if expirable_count(conds.take(i), now) >= a {
            expirable_count(conds.take(i), now) - a
        } else {
            0
        },
    decreases i,
{
    if i > 0 {
        lemma_cleaned_prefix_count(conds, now, a, i - 1);
        assert(conds.take(i).drop_last() =~= conds.take(i - 1));
        assert(cleaned(conds, now, a).take(i).drop_last() =~= cleaned(conds, now, a).take(i - 1));
    }
}

/// Cleaning with limit `a` and then, at the same time, with limit `b` expires exactly
/// the conditions one cleaning with limit `a + b` would, and the two counts add up to
/// its count.
pub proof fn lemma_cleanup_in_batches(conds: Seq<SwapCondition>, now: u64, a: nat, b: nat)
    ensures
        cleaned(cleaned(conds, now, a), now, b) == cleaned(conds, now, a + b),
        ({
            let total = expirable_count(conds, now);
            let first = if total < a { total } else { a };
            let rest = expirable_count(cleaned(conds, now, a), now);
            let second = if rest < b { rest } else { b };
            first + second == if total < a + b { total } else { a + b }
        }),
{
    let once = cleaned(conds, now, a);
    assert forall|i: int| 0 <= i < conds.len() implies #[trigger] cleaned(once, now, b)[i] == cleaned(
        conds,
        now,
        a + b,
    )[i] by {
        lemma_cleaned_prefix_count(conds, now, a, i);
    }
    assert(cleaned(once, now, b) =~= cleaned(conds, now, a + b));
    lemma_cleaned_prefix_count(conds, now, a, conds.len() as int);
    assert(conds.take(conds.len() as int) =~= conds);
    assert(once.take(conds.len() as int) =~= once);
}

/// The condition engine: creation, trigger checks, cancellation and expiry over an
/// in-memory record of every condition and its execution history.
pub struct SmartSwap {
    config: Option<ContractConfig>,
    conditions: Vec<SwapCondition>,
    executions: Vec<Vec<SwapExecution>>,
    supported_assets: Vec<String>,
    listed_pools: Option<Vec<String>>,
    stats: GlobalStats,
}

impl View for SmartSwap {
    type V = SwapModel;

    closed spec fn view(&self) -> SwapModel {
        SwapModel {
            config: self.config,
            conditions: self.conditions@,
            executions: self.executions@.map_values(|v: Vec<SwapExecution>| v@),
            supported_assets: self.supported_assets@.map_values(|s: String| s@),
            listed_pools: listing_view(self.listed_pools),
            stats: self.stats,
        }
    }
}

fn clone_executions(v: &Vec<SwapExecution>) -> (r: Vec<SwapExecution>)
    ensures
        r@ == v@,
{
    let mut r: Vec<SwapExecution> = Vec::new();
    let mut i: usize = 0;
    while i < v.len()
        invariant
            i <= v.len(),
            r@ == v@.take(i as int),
        decreases v.len() - i,
    {
        r.push(v[i].clone());
        i += 1;
        assert(r@ =~= v@.take(i as int));
    }
    assert(v@.take(v.len() as int) =~= v@);
    r
}

impl SmartSwap {
    pub open spec fn wf(&self) -> bool {
        self@.wf()
    }

    /// An engine that is not yet initialized.
    pub fn new() -> (r: Self)
        ensures
            r.wf(),
            r@.config.is_none(),
            r@.conditions.len() == 0,
            r@.supported_assets.len() == 0,
            r@.listed_pools.is_none(),
            r@.stats == zero_stats(),
    {
        let r = SmartSwap {
            config: None,
            conditions: Vec::new(),
            executions: Vec::new(),
            supported_assets: Vec::new(),
            listed_pools: None,
            stats: GlobalStats {
                total_conditions_created: 0,
                total_conditions_executed: 0,
                total_volume_swapped: 0,
                total_fees_collected: 0,
                active_conditions_count: 0,
            },
        };
        assert(r@.executions =~= Seq::<Seq<SwapExecution>>::empty());
        r
    }

    /// Installs the default configuration with `admin`, once.
    pub fn initialize(&mut self, admin: String, oracle_address: String, dex_address: String) -> (r: Result<
        (),
        SwapError,
    >)
        requires
            old(self).wf(),
        ensures
            final(self).wf(),
            old(self)@.config.is_some() ==> r == Err::<(), SwapError>(SwapError::AlreadyInitialized)
                && final(self)@ == old(self)@,
            old(self)@.config.is_none() ==> r is Ok && final(self)@ == (SwapModel {
                config: Some(
                    ContractConfig {
                        admin,
                        oracle_config: OracleConfigManager::spec_default_config(oracle_address),
                        dex_config: DexConfigManager::spec_default_config(dex_address),
                        paused: false,
                        max_conditions_per_user: DEFAULT_MAX_CONDITIONS_PER_USER,
                        min_condition_value: DEFAULT_MIN_CONDITION_VALUE,
                    },
                ),
                conditions: Seq::empty(),
                executions: Seq::empty(),
                supported_assets: Seq::empty(),
                listed_pools: None,
                stats: zero_stats(),
            }),
    {
        if self.config.is_some() {
            return Err(SwapError::AlreadyInitialized);
        }
        let oracle_config = OracleConfigManager::create_default_config(oracle_address);
        let dex_config = DexConfigManager::create_default_config(dex_address);
        self.config = Some(
            ContractConfig {
                admin,
                oracle_config,
                dex_config,
                paused: false,
                max_conditions_per_user: DEFAULT_MAX_CONDITIONS_PER_USER,
                min_condition_value: DEFAULT_MIN_CONDITION_VALUE,
            },
        );
        self.conditions = Vec::new();
        self.executions = Vec::new();
        self.supported_assets = Vec::new();
        self.listed_pools = None;
        self.stats = GlobalStats {
            total_conditions_created: 0,
            total_conditions_executed: 0,
            total_volume_swapped: 0,
            total_fees_collected: 0,
            active_conditions_count: 0,
        };
        assert(self@.executions =~= Seq::<Seq<SwapExecution>>::empty());
        assert(self@.supported_assets =~= Seq::<Seq<char>>::empty());
        Ok(())
    }

    /// The configuration record, if initialized.
    pub fn config(&self) -> (r: Option<ContractConfig>)
        ensures
            r == self@.config,
    {
        match &self.config {
            Some(c) => Some(c.clone()),
            None => None,
        }
    }

    /// Stores `config` as the configuration record.
    pub fn set_config(&mut self, config: ContractConfig)
        requires
            old(self).wf(),
        ensures
            final(self).wf(),
            final(self)@ == old(self)@.with_config(config),
    {
        self.config = Some(config);
    }

    fn check_not_paused(&self) -> (r: Result<(), SwapError>)
        ensures
            r == self@.not_paused(),
    {
        match &self.config {
            None => Err(SwapError::NotInitialized),
            Some(c) => if c.paused {
                Err(SwapError::ContractPaused)
            } else {
                Ok(())
            },
        }
    }

    fn check_admin(&self, caller: &String) -> (r: Result<(), SwapError>)
        ensures
            r == self@.admin_check(caller@),
    {
        match &self.config {
            None => Err(SwapError::NotInitialized),
            Some(c) => if c.admin != *caller {
                Err(SwapError::Unauthorized)
            } else {
                Ok(())
            },
        }
    }

    /// The condition named `condition_id`, if any.
    pub fn get_condition(&self, condition_id: u64) -> (r: Option<SwapCondition>)
        requires
            self.wf(),
        ensures
            r == (if self@.has(condition_id) {
                Some(self@.condition(condition_id))
            } else {
                None
            }),
    {
        if condition_id == 0 || condition_id > self.conditions.len() as u64 {
            return None;
        }
        Some(self.conditions[(condition_id - 1) as usize].clone())
    }

    /// Ids of `user`'s conditions, in creation order.
    pub fn get_user_conditions(&self, user: &String) -> (r: Vec<u64>)
        ensures
            r@ == owned_ids(self@.conditions, user@),
    {
        let mut ids: Vec<u64> = Vec::new();
        let mut i: usize = 0;
        while i < self.conditions.len()
            invariant
                i <= self.conditions@.len(),
                ids@ == owned_ids(self.conditions@.take(i as int), user@),
            decreases self.conditions@.len() - i,
        {
            assert(self.conditions@.take(i as int + 1).drop_last() =~= self.conditions@.take(i as int));
            if self.conditions[i].owner == *user {
                ids.push(self.conditions[i].id);
            }
            i += 1;
        }
        assert(self.conditions@.take(i as int) =~= self.conditions@);
        ids
    }

    /// The execution history of `condition_id`, oldest first; empty for an unknown id.
    pub fn get_condition_executions(&self, condition_id: u64) -> (r: Vec<SwapExecution>)
        requires
            self.wf(),
        ensures
            r@ == (if self@.has(condition_id) {
                self@.executions[condition_id - 1]
            } else {
                Seq::empty()
            }),
    {
        if condition_id == 0 || condition_id > self.executions.len() as u64 {
            return Vec::new();
        }
        clone_executions(&self.executions[(condition_id - 1) as usize])
    }

    /// A quote against the configured DEX, through the pools it lists.
    pub fn get_swap_quote(&self, token_in: &String, token_out: &String, amount_in: u64, now: u64) -> (r: Result<
        SwapQuote,
        SwapError,
    >)
        ensures
            self@.config.is_none() ==> r == Err::<SwapQuote, SwapError>(SwapError::NotInitialized),
            self@.config matches Some(c) ==> StellarDexIntegration::spec_get_swap_quote(
                r,
                c.dex_config,
                self@.listed_pools,
                *token_in,
                *token_out,
                amount_in,
                now,
            ),
    {
        match &self.config {
            None => Err(SwapError::NotInitialized),
            Some(c) => StellarDexIntegration::get_swap_quote(
                &c.dex_config,
                &self.listed_pools,
                token_in,
                token_out,
                amount_in,
                now,
            ),
        }
    }

    /// The aggregate counters.
    pub fn get_global_stats(&self) -> (r: GlobalStats)
        ensures
            r == self@.stats,
    {
        self.stats
    }

    /// Cancels an `Active` condition on behalf of its owner.
    pub fn cancel_condition(&mut self, caller: &String, condition_id: u64) -> (r: Result<(), SwapError>)
        requires
            old(self).wf(),
        ensures
            final(self).wf(),
            r == old(self)@.cancel_check(caller@, condition_id),
            r is Err ==> final(self)@ == old(self)@,
            r is Ok ==> final(self)@ == old(self)@.with_condition(
                condition_id,
                old(self)@.condition(condition_id).with_status(SwapStatus::Cancelled),
            ).with_stats(
                GlobalStats {
                    active_conditions_count: sat_sub(old(self)@.stats.active_conditions_count as int, 1) as u64,
                    ..old(self)@.stats
                },
            ),
    {
        if self.config.is_none() {
            return Err(SwapError::NoConditions);
        }
        if condition_id == 0 || condition_id > self.conditions.len() as u64 {
            return Err(SwapError::ConditionNotFound);
        }
        let idx = (condition_id - 1) as usize;
        if self.conditions[idx].owner != *caller {
            return Err(SwapError::NotOwner);
        }
        match self.conditions[idx].status {
            SwapStatus::Active => {
                let mut condition = self.conditions[idx].clone();
                condition.cancel();
                self.conditions.set(idx, condition);
                self.stats.active_conditions_count = self.stats.active_conditions_count.saturating_sub(1);
                proof {
                    assert(self@.conditions =~= old(self)@.conditions.update(
                        condition_id - 1,
                        old(self)@.condition(condition_id).with_status(SwapStatus::Cancelled),
                    ));
                    assert(forall|i: int| 0 <= i < self@.conditions.len() ==> (#[trigger] self@.conditions[i]).id == old(self)@.conditions[i].id);
                }
                Ok(())
            },
            _ => Err(SwapError::CannotCancel),
        }
    }

    /// Adds `asset_symbol` to the supported list unless already there; admin only.
    pub fn add_supported_asset(&mut self, caller: &String, asset_symbol: String) -> (r: Result<(), SwapError>)
        requires
            old(self).wf(),
        ensures
            final(self).wf(),
            r == old(self)@.admin_check(caller@),
            r is Err ==> final(self)@ == old(self)@,
            r is Ok ==> final(self)@ == (SwapModel {
                supported_assets: if old(self)@.supported_assets.contains(asset_symbol@) {
                    old(self)@.supported_assets
                } else {
                    old(self)@.supported_assets.push(asset_symbol@)
                },
                ..old(self)@
            }),
    {
        match self.check_admin(caller) {
            Ok(()) => {},
            Err(e) => {
                return Err(e);
            },
        }
        let ghost assets = self@.supported_assets;
        let mut i: usize = 0;
        while i < self.supported_assets.len()
            invariant
                i <= self.supported_assets@.len(),
                assets == self@.supported_assets,
                self@ == old(self)@,
                old(self).wf(),
                old(self)@.admin_check(caller@) == Ok::<(), SwapError>(()),
                assets.len() == self.supported_assets@.len(),
                forall|j: int| 0 <= j < i ==> assets[j] != asset_symbol@,
            decreases self.supported_assets@.len() - i,
        {
            if self.supported_assets[i] == asset_symbol {
                assert(assets[i as int] == asset_symbol@);
                return Ok(());
            }
            i += 1;
        }
        self.supported_assets.push(asset_symbol);
        assert(self@.supported_assets =~= assets.push(asset_symbol@));
        Ok(())
    }

    /// Pauses or resumes creation and execution; admin only.
    pub fn set_pause_status(&mut self, caller: &String, paused: bool) -> (r: Result<(), SwapError>)
        requires
            old(self).wf(),
        ensures
            final(self).wf(),
            r == old(self)@.admin_check(caller@),
            r is Err ==> final(self)@ == old(self)@,
            r is Ok ==> final(self)@ == old(self)@.with_config(
                ContractConfig { paused, ..old(self)@.config.unwrap() },
            ),
    {
        match self.check_admin(caller) {
            Ok(()) => {},
            Err(e) => {
                return Err(e);
            },
        }
        let mut config = self.config.clone().unwrap();
        config.paused = paused;
        self.config = Some(config);
        Ok(())
    }

    /// Replaces the oracle settings after validating them; admin only.
    pub fn update_oracle_config(&mut self, caller: &String, new_oracle_config: OracleConfig) -> (r: Result<
        (),
        SwapError,
    >)
        requires
            old(self).wf(),
        ensures
            final(self).wf(),
            r == (match old(self)@.admin_check(caller@) {
                Err(e) => Err(e),
                Ok(_) => OracleConfigManager::spec_validate_config(new_oracle_config),
            }),
            r is Err ==> final(self)@ == old(self)@,
            r is Ok ==> final(self)@ == old(self)@.with_config(
                ContractConfig { oracle_config: new_oracle_config, ..old(self)@.config.unwrap() },
            ),
    {
        match self.check_admin(caller) {
            Ok(()) => {},
            Err(e) => {
                return Err(e);
            },
        }
        match OracleConfigManager::validate_config(&new_oracle_config) {
            Ok(()) => {},
            Err(e) => {
                return Err(e);
            },
        }
        let mut config = self.config.clone().unwrap();
        config.oracle_config = new_oracle_config;
        self.config = Some(config);
        Ok(())
    }

    /// Replaces the DEX settings after validating them; admin only.
    pub fn update_dex_config(&mut self, caller: &String, new_dex_config: DexConfig) -> (r: Result<(), SwapError>)
        requires
            old(self).wf(),
        ensures
            final(self).wf(),
            r == (match old(self)@.admin_check(caller@) {
                Err(e) => Err(e),
                Ok(_) => DexConfigManager::spec_validate_config(new_dex_config),
            }),
            r is Err ==> final(self)@ == old(self)@,
            r is Ok ==> final(self)@ == old(self)@.with_config(
                ContractConfig { dex_config: new_dex_config, ..old(self)@.config.unwrap() },
            ),
    {
        match self.check_admin(caller) {
            Ok(()) => {},
            Err(e) => {
                return Err(e);
            },
        }
        match DexConfigManager::validate_config(&new_dex_config) {
            Ok(()) => {},
            Err(e) => {
                return Err(e);
            },
        }
        let mut config = self.config.clone().unwrap();
        config.dex_config = new_dex_config;
        self.config = Some(config);
        Ok(())
    }

    /// Expires, in creation order, up to `limit` `Active` conditions that are past their
    /// expiry at `now`, and returns how many it expired.
    pub fn cleanup_expired_conditions(&mut self, limit: u32, now: u64) -> (r: u32)
        requires
            old(self).wf(),
        ensures
            final(self).wf(),
            r == (if expirable_count(old(self)@.conditions, now) < limit {
                expirable_count(old(self)@.conditions, now)
            } else {
                limit as nat
            }),
            final(self)@ == (SwapModel {
                conditions: cleaned(old(self)@.conditions, now, limit as nat),
                stats: GlobalStats {
                    active_conditions_count: sat_sub(
                        old(self)@.stats.active_conditions_count as int,
                        r as int,
                    ) as u64,
                    ..old(self)@.stats
                },
                ..old(self)@
            }),
    {
        let ghost conds = self@.conditions;
        let mut cleaned_count: u32 = 0;
        let mut i: usize = 0;
        while i < self.conditions.len() && cleaned_count < limit
            invariant
                i <= conds.len(),
                self.conditions@.len() == conds.len(),
                self@ == (SwapModel { conditions: self.conditions@, ..old(self)@ }),
                cleaned_count == expirable_count(conds.take(i as int), now),
                cleaned_count <= limit,
                forall|j: int| 0 <= j < i ==> self.conditions@[j] == #[trigger] cleaned(conds, now, limit as nat)[j],
                forall|j: int| i <= j < conds.len() ==> #[trigger] self.conditions@[j] == conds[j],
            decreases conds.len() - i,
        {
            assert(conds.take(i as int + 1).drop_last() =~= conds.take(i as int));
            if now > self.conditions[i].expires_at && self.conditions[i].status == SwapStatus::Active {
                let mut condition = self.conditions[i].clone();
                condition.mark_as_expired(now);
                self.conditions.set(i, condition);
                cleaned_count += 1;
            }
            i += 1;
        }
        proof {
            if i < conds.len() {
                assert forall|j: int| i <= j < conds.len() implies self.conditions@[j] == #[trigger] cleaned(
                    conds,
                    now,
                    limit as nat,
                )[j] by {
                    lemma_expirable_count_mono(conds, now, i as int, j);
                }
                lemma_expirable_count_mono(conds, now, i as int, conds.len() as int);
            }
            assert(conds.take(conds.len() as int) =~= conds);
            assert(self.conditions@ =~= cleaned(conds, now, limit as nat));
        }
        self.stats.active_conditions_count = self.stats.active_conditions_count.saturating_sub(cleaned_count as u64);
        cleaned_count
    }

    fn count_active(&self, user: &String) -> (r: u64)
        ensures
            r == active_count(self@.conditions, user@),
    {
        let mut count: u64 = 0;
        let mut i: usize = 0;
        while i < self.conditions.len()
            invariant
                i <= self.conditions@.len(),
                count <= i,
                count == active_count(self.conditions@.take(i as int), user@),
            decreases self.conditions@.len() - i,
        {
            assert(self.conditions@.take(i as int + 1).drop_last() =~= self.conditions@.take(i as int));
            if self.conditions[i].owner == *user && self.conditions[i].status == SwapStatus::Active {
                count += 1;
            }
            i += 1;
        }
        assert(self.conditions@.take(i as int) =~= self.conditions@);
        count
    }

    /// Admits a request from `caller` at `now`: the engine must be running, the request
    /// valid, the caller under its active-condition ceiling, the amount at least the
    /// minimum value, the source price available and usable, and the pool liquid enough.
    /// The new condition gets the next id and the current price as reference.
    pub fn create_swap_condition(&mut self, caller: &String, request: CreateSwapRequest, now: u64) -> (r: Result<
        u64,
        SwapError,
    >)
        requires
            old(self).wf(),
        ensures
            final(self).wf(),
            match create_outcome(old(self)@, caller@, request, now) {
                Err(e) => r == Err::<u64, SwapError>(e) && final(self)@ == old(self)@,
                Ok(price) => {
                    let id = (old(self)@.conditions.len() + 1) as u64;
                    &&& r == Ok::<u64, SwapError>(id)
                    &&& final(self)@ == after_create(old(self)@, *caller, request, price, now)
                },
            },
    {
        match self.check_not_paused() {
            Ok(()) => {},
            Err(e) => {
                return Err(e);
            },
        }
        match request.validate(now) {
            Ok(()) => {},
            Err(v) => {
                return Err(v.message);
            },
        }
        let config = self.config.clone().unwrap();
        let active = self.count_active(caller);
        if active >= config.max_conditions_per_user as u64 {
            return Err(SwapError::ConditionLimitExceeded);
        }
        if request.amount_to_swap < config.min_condition_value {
            return Err(SwapError::AmountBelowMinimum);
        }
        let price_result = PriceOracleClient::get_price(&config.oracle_config, &request.source_asset, now);
        if !price_result.success {
            return Err(
                match price_result.error_message {
                    Some(e) => e,
                    None => SwapError::PriceUnavailable,
                },
            );
        }
        let current_price = match price_result.price_data {
            Some(d) => d,
            None => {
                return Err(SwapError::PriceUnavailable);
            },
        };
        match PriceOracleClient::validate_price_for_swap(&current_price, &config.oracle_config, now) {
            Ok(()) => {},
            Err(e) => {
                return Err(e);
            },
        }
        let has_liquidity = match StellarDexIntegration::check_liquidity(
            &config.dex_config,
            &request.source_asset,
            &request.destination_asset,
            request.amount_to_swap,
            now,
        ) {
            Ok(b) => b,
            Err(e) => {
                return Err(e);
            },
        };
        if !has_liquidity {
            return Err(SwapError::InsufficientLiquidity);
        }
        if self.conditions.len() as u64 >= u64::MAX - 1 {
            return Err(SwapError::ConditionLimitExceeded);
        }
        let condition_id = self.conditions.len() as u64 + 1;
        let condition = SwapCondition::new(condition_id, caller.clone(), request, current_price.price, now);
        let ghost before = self@;
        self.conditions.push(condition);
        self.executions.push(Vec::new());
        self.stats.total_conditions_created = self.stats.total_conditions_created.saturating_add(1);
        self.stats.active_conditions_count = self.stats.active_conditions_count.saturating_add(1);
        proof {
            assert(self@.executions =~= before.executions.push(Seq::empty()));
        }
        Ok(condition_id)
    }

    /// Checks condition `condition_id` at `now`. When it may run and its price, checked
    /// for age and confidence, fires it, the swap is attempted: on success the execution
    /// is counted and recorded, on failure the condition becomes `Failed`; the record is
    /// returned either way, and a failed one carries the reason (`SlippageExceeded` when
    /// the quote already falls short of the minimum output and no swap was made). When
    /// the price does not fire it, only the check time is updated and `None` returned.
    pub fn check_and_execute_condition(&mut self, condition_id: u64, now: u64) -> (r: Result<
        Option<SwapExecution>,
        SwapError,
    >)
        requires
            old(self).wf(),
        ensures
            final(self).wf(),
            match check_outcome(old(self)@, condition_id, now) {
                Err(e) => r == Err::<Option<SwapExecution>, SwapError>(e) && final(self)@ == old(self)@,
                Ok(price) => {
                    let c = old(self)@.condition(condition_id);
                    let params = swap_params_of(c, now);
                    let outcome = spec_execute_outcome(
                        old(self)@.listed_pools,
                        params,
                        old(self)@.config.unwrap().dex_config.fee_tier,
                        now,
                    );
                    if !c.spec_should_execute(price) {
                        &&& r == Ok::<Option<SwapExecution>, SwapError>(None)
                        &&& final(self)@ == old(self)@.with_condition(
                            condition_id,
                            SwapCondition { last_check: now, ..c },
                        )
                    } else {
                        &&& r matches Ok(Some(ex))
                        &&& records(ex, condition_id, price, now, swap_figures(params, outcome), failure_of(outcome))
                        &&& final(self)@ == after_trigger(old(self)@, condition_id, now, outcome is Ok, ex)
                    }
                },
            },
    {
        match self.check_not_paused() {
            Ok(()) => {},
            Err(e) => {
                return Err(e);
            },
        }
        if condition_id == 0 || condition_id > self.conditions.len() as u64 {
            return Err(SwapError::ConditionNotFound);
        }
        let idx = (condition_id - 1) as usize;
        let mut condition = self.conditions[idx].clone();
        match condition.is_valid(now) {
            Ok(()) => {},
            Err(v) => {
                return Err(v.message);
            },
        }
        let config = self.config.clone().unwrap();
        let price_result = PriceOracleClient::get_price(&config.oracle_config, &condition.source_asset, now);
        if !price_result.success {
            return Err(
                match price_result.error_message {
                    Some(e) => e,
                    None => SwapError::PriceUnavailable,
                },
            );
        }
        let current_price = match price_result.price_data {
            Some(d) => d,
            None => {
                return Err(SwapError::PriceUnavailable);
            },
        };
        match PriceOracleClient::validate_price_for_swap(&current_price, &config.oracle_config, now) {
            Ok(()) => {},
            Err(e) => {
                return Err(e);
            },
        }
        let current_price = current_price.price;
        let ghost before = self@;
        if !condition.should_execute(current_price) {
            condition.last_check = now;
            self.conditions.set(idx, condition);
            proof {
                assert(self@.conditions =~= before.conditions.update(idx as int, self@.conditions[idx as int]));
                assert(forall|i: int| 0 <= i < self@.conditions.len() ==> (#[trigger] self@.conditions[i]).id == before.conditions[i].id);
            }
            return Ok(None);
        }
        let swap_params = SwapParams {
            token_in: condition.source_asset.clone(),
            token_out: condition.destination_asset.clone(),
            amount_in: condition.amount_to_swap,
            amount_out_min: condition.min_amount_out,
            to: condition.owner.clone(),
            deadline: now.saturating_add(SWAP_DEADLINE_WINDOW),
        };
        let swap_result = StellarDexIntegration::execute_swap(
            &config.dex_config,
            &self.listed_pools,
            &swap_params,
            now,
        );
        let mut execution = SwapExecution::new(
            condition.id,
            current_price,
            swap_result.amount_in,
            swap_result.amount_out,
            swap_result.gas_used,
            swap_result.transaction_hash,
            now,
        );
        execution.failure_reason = swap_result.error_message;
        if swap_result.success {
            condition.update_execution(now, &execution);
            let mut history = clone_executions(&self.executions[idx]);
            history.push(execution.clone());
            self.executions.set(idx, history);
            self.stats.total_conditions_executed = self.stats.total_conditions_executed.saturating_add(1);
            self.stats.total_volume_swapped = self.stats.total_volume_swapped.saturating_add(execution.amount_in);
            if condition.status == SwapStatus::Executed {
                self.stats.active_conditions_count = self.stats.active_conditions_count.saturating_sub(1);
            }
        } else {
            condition.mark_as_failed();
        }
        self.conditions.set(idx, condition);
        proof {
            assert(self@.conditions =~= before.conditions.update(idx as int, self@.conditions[idx as int]));
            assert(self@.executions =~= after_trigger(before, condition_id, now, swap_result.success, execution).executions);
            assert(forall|i: int| 0 <= i < self@.conditions.len() ==> (#[trigger] self@.conditions[i]).id == before.conditions[i].id);
        }
        Ok(Some(execution))
    }

    /// Rebuilds an engine from stored parts; `None` unless condition `i` has id `i + 1`,
    /// every condition has a history, and conditions exist only with a configuration.
    pub fn from_parts(
        config: Option<ContractConfig>,
        conditions: Vec<SwapCondition>,
        executions: Vec<Vec<SwapExecution>>,
        supported_assets: Vec<String>,
        listed_pools: Option<Vec<String>>,
        stats: GlobalStats,
    ) -> (r: Option<Self>)
        ensures
            ({
                let m = SwapModel {
                    config,
                    conditions: conditions@,
                    executions: executions@.map_values(|v: Vec<SwapExecution>| v@),
                    supported_assets: supported_assets@.map_values(|s: String| s@),
                    listed_pools: listing_view(listed_pools),
                    stats,
                };
                &&& r is Some <==> m.wf()
                &&& r matches Some(e) ==> e.wf() && e@ == m
            }),
    {
        if conditions.len() != executions.len() || conditions.len() as u64 >= u64::MAX {
            return None;
        }
        if config.is_none() && conditions.len() > 0 {
            return None;
        }
        let mut i: usize = 0;
        while i < conditions.len()
            invariant
                i <= conditions@.len(),
                forall|j: int| 0 <= j < i ==> (#[trigger] conditions@[j]).id == j + 1,
            decreases conditions@.len() - i,
        {
            if conditions[i].id != i as u64 + 1 {
                return None;
            }
            i += 1;
        }
        Some(SmartSwap { config, conditions, executions, supported_assets, listed_pools, stats })
    }

    /// Every condition, in id order.
    pub fn conditions(&self) -> (r: Vec<SwapCondition>)
        ensures
            r@ == self@.conditions,
    {
        let mut r: Vec<SwapCondition> = Vec::new();
        let mut i: usize = 0;
        while i < self.conditions.len()
            invariant
                i <= self.conditions@.len(),
                r@ == self.conditions@.take(i as int),
            decreases self.conditions@.len() - i,
        {
            r.push(self.conditions[i].clone());
            i += 1;
            assert(r@ =~= self.conditions@.take(i as int));
        }
        assert(self.conditions@.take(i as int) =~= self.conditions@);
        r
    }

    /// Every condition's execution history, in id order.
    pub fn all_executions(&self) -> (r: Vec<Vec<SwapExecution>>)
        ensures
            r@.map_values(|v: Vec<SwapExecution>| v@) == self@.executions,
    {
        let mut r: Vec<Vec<SwapExecution>> = Vec::new();
        let mut i: usize = 0;
        while i < self.executions.len()
            invariant
                i <= self.executions@.len(),
                r@.len() == i,
                forall|j: int| 0 <= j < i ==> (#[trigger] r@[j])@ == self.executions@[j]@,
            decreases self.executions@.len() - i,
        {
            r.push(clone_executions(&self.executions[i]));
            i += 1;
        }
        assert(r@.map_values(|v: Vec<SwapExecution>| v@) =~= self@.executions);
        r
    }

    /// The supported assets, in the order they were added.
    pub fn supported_assets(&self) -> (r: Vec<String>)
        ensures
            r@.map_values(|s: String| s@) == self@.supported_assets,
    {
        let r = clone_strings(&self.supported_assets);
        assert(r@.map_values(|s: String| s@) =~= self@.supported_assets);
        r
    }

    /// The pools the DEX lists; `None` when it lists one for every pair.
    pub fn listed_pools(&self) -> (r: Option<Vec<String>>)
        ensures
            listing_view(r) == self@.listed_pools,
    {
        match &self.listed_pools {
            None => None,
            Some(v) => Some(clone_strings(v)),
        }
    }

    /// Records the pools the DEX lists (`None`: one for every pair); admin only.
    pub fn set_listed_pools(&mut self, caller: &String, listed_pools: Option<Vec<String>>) -> (r: Result<
        (),
        SwapError,
    >)
        requires
            old(self).wf(),
        ensures
            final(self).wf(),
            r == old(self)@.admin_check(caller@),
            r is Err ==> final(self)@ == old(self)@,
            r is Ok ==> final(self)@ == (SwapModel { listed_pools: listing_view(listed_pools), ..old(self)@ }),
    {
        match self.check_admin(caller) {
            Ok(()) => {},
            Err(e) => {
                return Err(e);
            },
        }
        self.listed_pools = listed_pools;
        Ok(())
    }
}

} // verus!
