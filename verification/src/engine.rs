use vstd::prelude::*;

verus! {

use crate::borrow::compute_borrow_rate;
use crate::borrow::spec_compute_borrow_rate;
use crate::config::EngineConfig;
use crate::error::EngineError;
use crate::funding::compute_funding_rate;
use crate::funding::spec_funding_outcome;
use crate::market::Market;
use crate::market::PerpMarketState;
use crate::market::SpotMarketState;
use crate::oracle::expo_magnitude;
use crate::oracle::normalize_ok;
use crate::oracle::normalize_oracle_price;
use crate::oracle::normalized_price;
use crate::oracle::OracleReading;
use crate::planner::plan_rebalance;
use crate::planner::round_up_to_step;
use crate::planner::signed_token_amount_of;
use crate::planner::signed_token_amount_ok;
use crate::planner::spec_plan;
use crate::planner::AccountState;
use crate::planner::RebalancePlan;

/// Whether every order size one cycle could emit fits the 64-bit order
/// size after quantization, whichever way the close decision and the
/// favored direction turn out. This is the one machine limit the planner
/// asks its caller to respect.
pub open spec fn plan_sizes_fit(
    account: AccountState,
    spot_market: SpotMarketState,
    target_size: int,
    perp_step: int,
) -> bool {
    &&& round_up_to_step(target_size, perp_step) <= u64::MAX
    &&& round_up_to_step(target_size, spot_market.order_step_size as int) <= u64::MAX
    &&& match account.perp_position {
        None => true,
        Some(p) => {
            let base = vstd::math::abs(p.base_asset_amount as int);
            &&& round_up_to_step(base as int, perp_step) <= u64::MAX
            &&& round_up_to_step(base + target_size, perp_step) <= u64::MAX
        },
    }
    &&& match account.spot_position {
        None => true,
        Some(sp) => signed_token_amount_ok(sp, spot_market) ==> {
            let token = vstd::math::abs(signed_token_amount_of(sp, spot_market));
            &&& round_up_to_step(token as int, spot_market.order_step_size as int) <= u64::MAX
            &&& round_up_to_step(token + target_size, spot_market.order_step_size as int)
                <= u64::MAX
        },
    }
}

/// The plan one evaluation cycle owes for its inputs, or the exact typed
/// failure that aborts it: the whole pipeline — market-kind checks, oracle
/// sufficiency, price normalization, the funding-rate computation, the
/// borrow-rate computation and its rescaling, and the position planner —
/// as one function of the cycle's inputs.
pub open spec fn spec_evaluate_cycle(
    cfg: EngineConfig,
    perp_market: Market,
    spot_market: Market,
    account: AccountState,
    reading: OracleReading,
    now: int,
    target_size: int,
) -> Result<RebalancePlan, EngineError>
    recommends
        cfg.valid(),
{
    match perp_market {
        Market::Spot(_) => Err(EngineError::WrongMarketKind),
        Market::Perp(pm) => match spot_market {
            Market::Perp(_) => Err(EngineError::WrongMarketKind),
            Market::Spot(sm) => {
                if !reading.has_sufficient_data {
                    Err(EngineError::InsufficientData)
                } else if !normalize_ok(
                    reading.price as int,
                    reading.confidence as int,
                    expo_magnitude(reading.exponent as int),
                    cfg.price_precision as int,
                ) {
                    Err(EngineError::PriceConversion)
                } else {
                    let oracle_price = normalized_price(
                        reading.price as int,
                        expo_magnitude(reading.exponent as int),
                        cfg.price_precision as int,
                    );
                    match spec_funding_outcome(cfg, pm, oracle_price, now) {
                        Err(e) => Err(e),
                        Ok(o) => match spec_compute_borrow_rate(
                            sm,
                            cfg.utilization_precision as int,
                        ) {
                            Err(e) => Err(e),
                            Ok(br) => {
                                if br * cfg.borrow_rate_scale > u128::MAX {
                                    Err(EngineError::RateComputation)
                                } else {
                                    spec_plan(
                                        o.0,
                                        o.1,
                                        br * cfg.borrow_rate_scale,
                                        target_size,
                                        account,
                                        sm,
                                        pm.market_index as int,
                                        pm.amm.order_step_size as int,
                                    )
                                }
                            },
                        },
                    }
                }
            },
        },
    }
}

/// Runs one full evaluation cycle over fresh snapshots: normalizes the
/// oracle reading, advances a local copy of the perpetual market's
/// time-weighted averages, derives the annualized funding rate and the
/// rescaled borrow rate, gates profitability, and plans the two legs'
/// orders. Pure given its inputs: the result is exactly
/// `spec_evaluate_cycle` of them, so re-running a cycle is always safe.
pub fn evaluate_cycle(
    cfg: &EngineConfig,
    perp_market: &Market,
    spot_market: &Market,
    account: &AccountState,
    oracle_reading: &OracleReading,
    now: i64,
    target_position_size: u64,
) -> (r: Result<RebalancePlan, EngineError>)
    requires
        cfg.valid(),
        now >= 0,
        perp_market matches Market::Perp(pm) ==> pm.well_formed() && pm.amm.order_step_size > 0,
        spot_market matches Market::Spot(sm) ==> sm.well_formed() && sm.order_step_size > 0,
        perp_market matches Market::Perp(pm) ==> spot_market matches Market::Spot(sm)
            ==> plan_sizes_fit(
            *account,
            *sm,
            target_position_size as int,
            pm.amm.order_step_size as int,
        ),
    ensures
        ({
            let s = spec_evaluate_cycle(
                *cfg,
                *perp_market,
                *spot_market,
                *account,
                *oracle_reading,
                now as int,
                target_position_size as int,
            );
            match r {
                Ok(p) => s matches Ok(q) && p == q,
                Err(e) => s matches Err(e2) && e == e2,
            }
        }),
{
    let perp_state: &PerpMarketState = match perp_market.as_perp() {
        Ok(p) => p,
        Err(e) => {
            return Err(e);
        },
    };
    let spot_state: &SpotMarketState = match spot_market.as_spot() {
        Ok(s) => s,
        Err(e) => {
            return Err(e);
        },
    };
    if !oracle_reading.has_sufficient_data {
        return Err(EngineError::InsufficientData);
    }
    let oracle_data = match normalize_oracle_price(
        cfg,
        oracle_reading.price,
        oracle_reading.confidence,
        oracle_reading.exponent,
    ) {
        Ok(o) => o,
        Err(e) => {
            return Err(e);
        },
    };
    let mut perp_scratch: PerpMarketState = *perp_state;
    let funding = match compute_funding_rate(cfg, &mut perp_scratch, &oracle_data, now) {
        Ok(f) => f,
        Err(e) => {
            return Err(e);
        },
    };
    let borrow_raw: u128 = match compute_borrow_rate(cfg, spot_state) {
        Ok(b) => b,
        Err(e) => {
            return Err(e);
        },
    };
    let borrow_rate: u128 = match borrow_raw.checked_mul(cfg.borrow_rate_scale) {
        Some(v) => v,
        None => {
            return Err(EngineError::RateComputation);
        },
    };
    plan_rebalance(
        &funding,
        borrow_rate,
        target_position_size,
        account,
        spot_state,
        perp_scratch.market_index,
        perp_scratch.amm.order_step_size,
    )
}

/// Evaluating a cycle is idempotent: two runs over identical inputs owe
/// identical plans, because the whole cycle is a function of its inputs
/// alone.
pub proof fn lemma_evaluate_cycle_idempotent(
    r1: Result<RebalancePlan, EngineError>,
    r2: Result<RebalancePlan, EngineError>,
    cfg: EngineConfig,
    perp_market: Market,
    spot_market: Market,
    account: AccountState,
    reading: OracleReading,
    now: int,
    target_size: int,
)
    requires
        r1 == spec_evaluate_cycle(cfg, perp_market, spot_market, account, reading, now, target_size),
        r2 == spec_evaluate_cycle(cfg, perp_market, spot_market, account, reading, now, target_size),
    ensures
        r1 == r2,
{
}

} // verus!
