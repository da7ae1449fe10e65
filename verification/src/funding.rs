use vstd::prelude::*;

verus! {

use vstd::arithmetic::div_mod::lemma_div_is_ordered;
use vstd::arithmetic::div_mod::lemma_div_multiples_vanish;
use vstd::arithmetic::div_mod::lemma_div_pos_is_pos;
use vstd::arithmetic::mul::lemma_mul_inequality;
use vstd::arithmetic::mul::lemma_mul_is_commutative;
use vstd::arithmetic::mul::lemma_mul_nonnegative;
use vstd::arithmetic::mul::lemma_mul_unary_negation;
use crate::arith::clamp_to;
use crate::arith::div_trunc;
use crate::arith::lemma_div_trunc_abs_le;
use crate::config::EngineConfig;
use crate::error::EngineError;
use crate::market::AmmState;
use crate::market::PerpMarketState;
use crate::market::PositionDirection;
use crate::oracle::OraclePriceData;
use crate::twap::premium_price_of;
use crate::twap::premium_price_ok;
use crate::twap::twap_blend;
use crate::twap::twap_blend_ok;
use crate::twap::execution_premium;
use crate::twap::update_price_twap;

/// The multiplier that normalizes a funding interval to a daily window,
/// with a floor of one hour on the interval.
pub open spec fn period_adjustment_of(funding_period: int) -> int {
    86400int / vstd::math::max(3600, funding_period)
}

/// The mark/oracle premium, clamped so its magnitude never exceeds one
/// thirty-third (about three percent) of the oracle's time-weighted
/// average.
pub open spec fn clamped_spread_of(oracle_twap: int, mark_twap: int) -> int
    recommends
        oracle_twap >= 0,
{
    clamp_to(mark_twap - oracle_twap, oracle_twap / 33)
}

/// For any positive oracle average, the clamped spread's magnitude never
/// exceeds `oracle_twap / 33`.
pub proof fn lemma_clamped_spread_bounded(oracle_twap: int, mark_twap: int)
    requires
        oracle_twap > 0,
    ensures
        vstd::math::abs(clamped_spread_of(oracle_twap, mark_twap)) <= oracle_twap / 33,
{
    lemma_div_pos_is_pos(oracle_twap, 33);
}

/// The venue's imbalance split of one funding rate into a long-side and a
/// short-side rate. The paying side always carries the full rate; the
/// receiving side's rate is dampened in proportion to how far its open
/// interest exceeds the paying side's, so the minority side is not
/// starved. A positive rate means longs pay shorts.
pub open spec fn split_funding_rate(rate: int, long_oi: int, short_oi: int) -> (int, int)
    recommends
        long_oi >= 0,
        short_oi >= 0,
{
    if rate >= 0 {
        let short_rate = if short_oi > long_oi {
            div_trunc(rate * long_oi, short_oi)
        } else {
            rate
        };
        (rate, short_rate)
    } else {
        let long_rate = if long_oi > short_oi {
            div_trunc(rate * short_oi, long_oi)
        } else {
            rate
        };
        (long_rate, rate)
    }
}

/// A rate dampened by the ratio of a smaller to a larger open interest
/// never grows in magnitude.
pub proof fn lemma_dampened_rate_within(rate: int, small: int, big: int)
    requires
        0 <= small < big,
    ensures
        vstd::math::abs(div_trunc(rate * small, big)) <= vstd::math::abs(rate),
{
    if rate >= 0 {
        lemma_mul_nonnegative(rate, small);
        lemma_mul_inequality(small, big, rate);
        lemma_mul_is_commutative(small, rate);
        lemma_mul_is_commutative(big, rate);
        lemma_div_is_ordered(rate * small, big * rate, big);
        lemma_div_multiples_vanish(rate, big);
        lemma_div_pos_is_pos(rate * small, big);
    } else {
        let m = -rate;
        lemma_mul_unary_negation(rate, small);
        lemma_mul_nonnegative(m, small);
        lemma_mul_inequality(small, big, m);
        lemma_mul_is_commutative(small, m);
        lemma_mul_is_commutative(big, m);
        lemma_div_is_ordered(m * small, big * m, big);
        lemma_div_multiples_vanish(m, big);
        lemma_div_pos_is_pos(m * small, big);
    }
}

/// Splits one funding rate into the long-side and short-side rates by the
/// market's open-interest imbalance, exactly as `split_funding_rate`
/// states.
pub fn calculate_funding_rate_long_short(rate: i64, long_oi: u64, short_oi: u64) -> (r: (
    i64,
    i64,
))
    ensures
        r.0 == split_funding_rate(rate as int, long_oi as int, short_oi as int).0,
        r.1 == split_funding_rate(rate as int, long_oi as int, short_oi as int).1,
        vstd::math::abs(r.0 as int) <= vstd::math::abs(rate as int),
        vstd::math::abs(r.1 as int) <= vstd::math::abs(rate as int),
{
    if rate >= 0 {
        if short_oi > long_oi {
            proof {
                assert((rate as int) * (long_oi as int) < i128::MAX) by (nonlinear_arith)
                    requires
                        0 <= rate <= i64::MAX,
                        0 <= long_oi <= u64::MAX,
                ;
                lemma_mul_nonnegative(rate as int, long_oi as int);
            }
            let num: i128 = (rate as i128) * (long_oi as i128);
            let q: i128 = match num.checked_div(short_oi as i128) {
                Some(v) => v,
                None => {
                    return (rate, rate);
                },
            };
            proof {
                lemma_dampened_rate_within(rate as int, long_oi as int, short_oi as int);
            }
            (rate, q as i64)
        } else {
            (rate, rate)
        }
    } else {
        if long_oi > short_oi {
            proof {
                assert(i128::MIN < (rate as int) * (short_oi as int)) by (nonlinear_arith)
                    requires
                        i64::MIN <= rate < 0,
                        0 <= short_oi <= u64::MAX,
                ;
                assert((rate as int) * (short_oi as int) <= 0) by {
                    lemma_mul_unary_negation(rate as int, short_oi as int);
                    lemma_mul_nonnegative(-rate as int, short_oi as int);
                }
            }
            let num: i128 = (rate as i128) * (short_oi as i128);
            let q: i128 = match num.checked_div(long_oi as i128) {
                Some(v) => v,
                None => {
                    return (rate, rate);
                },
            };
            proof {
                lemma_dampened_rate_within(rate as int, short_oi as int, long_oi as int);
            }
            (q as i64, rate)
        } else {
            (rate, rate)
        }
    }
}

/// The side that is being paid funding: shorts when the mark average sits
/// above the oracle average, longs otherwise.
pub open spec fn favored_direction_of(oracle_twap: int, mark_twap: int) -> PositionDirection {
    if mark_twap > oracle_twap {
        PositionDirection::Short
    } else {
        PositionDirection::Long
    }
}

/// The output of the funding-rate calculator: the annualized,
/// percentage-scaled magnitude of the funding rate paid to the favored
/// side, and that side. Immutable; recomputed every cycle.
#[derive(Clone, Copy, Debug, PartialEq, Eq, Structural)]
pub struct FundingDecision {
    pub annualized_funding_rate: u128,
    pub favored_direction: PositionDirection,
}

/// Everything one funding-rate computation produces from a perpetual
/// market snapshot, a normalized oracle price and the current time: the
/// annualized rate, the favored direction, and the two advanced
/// time-weighted averages — or the exact failure that aborts the cycle.
pub open spec fn spec_funding_outcome(
    cfg: EngineConfig,
    m: PerpMarketState,
    oracle_price: int,
    now: int,
) -> Result<(int, PositionDirection, int, int), EngineError>
    recommends
        cfg.valid(),
        m.well_formed(),
{
    let amm = m.amm;
    if !twap_blend_ok(
        amm.oracle_price_twap as int,
        oracle_price,
        amm.last_update_timestamp as int,
        now,
        amm.funding_period as int,
        m.sanitize_clamp_denominator as int,
    ) {
        Err(EngineError::RateComputation)
    } else {
        let t1 = twap_blend(
            amm.oracle_price_twap as int,
            oracle_price,
            amm.last_update_timestamp as int,
            now,
            amm.funding_period as int,
            m.sanitize_clamp_denominator as int,
        );
        if !premium_price_ok(m, cfg.spread_precision as int) {
            Err(EngineError::RateComputation)
        } else if premium_price_of(m, cfg.spread_precision as int) > i64::MAX {
            Err(EngineError::RateComputation)
        } else {
            let sample = premium_price_of(m, cfg.spread_precision as int);
            if !twap_blend_ok(
                amm.mark_price_twap as int,
                sample,
                amm.last_update_timestamp as int,
                now,
                amm.funding_period as int,
                m.sanitize_clamp_denominator as int,
            ) {
                Err(EngineError::RateComputation)
            } else {
                let t2 = twap_blend(
                    amm.mark_price_twap as int,
                    sample,
                    amm.last_update_timestamp as int,
                    now,
                    amm.funding_period as int,
                    m.sanitize_clamp_denominator as int,
                );
                let pa = period_adjustment_of(amm.funding_period as int);
                if pa == 0 {
                    Err(EngineError::RateComputation)
                } else {
                    let raw = div_trunc(
                        clamped_spread_of(t1, t2) * cfg.funding_rate_buffer as int,
                        pa,
                    );
                    if raw < i64::MIN || raw > i64::MAX {
                        Err(EngineError::RateComputation)
                    } else {
                        let rates = split_funding_rate(
                            raw,
                            m.base_asset_amount_long as int,
                            m.base_asset_amount_short as int,
                        );
                        let delta = if t2 > t1 {
                            rates.1
                        } else {
                            rates.0
                        };
                        if t1 == 0 {
                            Err(EngineError::RateComputation)
                        } else {
                            let apr = vstd::math::abs(
                                div_trunc(delta * cfg.price_precision as int, t1),
                            ) * 876000;
                            if apr > u128::MAX {
                                Err(EngineError::RateComputation)
                            } else {
                                Ok((apr as int, favored_direction_of(t1, t2), t1, t2))
                            }
                        }
                    }
                }
            }
        }
    }
}

/// Computes the clamped mark/oracle premium of a perpetual market,
/// converts it into a signed per-period funding rate, splits it by
/// open-interest imbalance, and annualizes the rate paid to the favored
/// side. Advances the market's two time-weighted averages in place; on
/// failure the market is left untouched and the cycle aborts.
pub fn compute_funding_rate(
    cfg: &EngineConfig,
    market: &mut PerpMarketState,
    oracle_price_data: &OraclePriceData,
    now: i64,
) -> (r: Result<FundingDecision, EngineError>)
    requires
        cfg.valid(),
        old(market).well_formed(),
        now >= 0,
    ensures
        ({
            let s = spec_funding_outcome(
                *cfg,
                *old(market),
                oracle_price_data.price as int,
                now as int,
            );
            match r {
                Ok(d) => {
                    &&& s matches Ok(o) && ({
                        &&& d.annualized_funding_rate == o.0
                        &&& d.favored_direction == o.1
                        &&& *final(market) == (PerpMarketState {
                            amm: AmmState {
                                oracle_price_twap: o.2 as i64,
                                mark_price_twap: o.3 as i64,
                                last_update_timestamp: now,
                                ..old(market).amm
                            },
                            ..*old(market)
                        })
                    })
                    &&& final(market).well_formed()
                },
                Err(e) => {
                    &&& s matches Err(e2) && e == e2
                    &&& *final(market) == *old(market)
                },
            }
        }),
{
    let amm = market.amm;
    let t1: i64 = match update_price_twap(
        amm.oracle_price_twap,
        amm.last_update_timestamp,
        oracle_price_data.price,
        now,
        amm.funding_period,
        market.sanitize_clamp_denominator,
    ) {
        Ok(v) => v,
        Err(e) => {
            return Err(e);
        },
    };
    let premium: u64 = match execution_premium(cfg, market) {
        Ok(pd) => pd.0,
        Err(e) => {
            return Err(e);
        },
    };
    if premium > i64::MAX as u64 {
        return Err(EngineError::RateComputation);
    }
    let t2: i64 = match update_price_twap(
        amm.mark_price_twap,
        amm.last_update_timestamp,
        premium as i64,
        now,
        amm.funding_period,
        market.sanitize_clamp_denominator,
    ) {
        Ok(v) => v,
        Err(e) => {
            return Err(e);
        },
    };
    let floor_period: i64 = if amm.funding_period > 3600 {
        amm.funding_period
    } else {
        3600
    };
    let pa: i64 = (86400u64 / (floor_period as u64)) as i64;
    proof {
        vstd::arithmetic::div_mod::lemma_div_nonincreasing(86400, floor_period as int);
        lemma_div_pos_is_pos(86400, floor_period as int);
    }
    if pa == 0 {
        return Err(EngineError::RateComputation);
    }

    let max_spread: i64 = ((t1 as u64) / 33) as i64;
    proof {
        vstd::arithmetic::div_mod::lemma_div_nonincreasing(t1 as int, 33);
        lemma_div_pos_is_pos(t1 as int, 33);
    }
    let spread: i64 = t2 - t1;
    let capped: i64 = if spread < max_spread {
        spread
    } else {
        max_spread
    };
    let clamped: i64 = if capped < -max_spread {
        -max_spread
    } else {
        capped
    };
    assert(clamped == clamped_spread_of(t1 as int, t2 as int));

    proof {
        assert((clamped as int) * (cfg.funding_rate_buffer as int) < i128::MAX && i128::MIN < (
        clamped as int) * (cfg.funding_rate_buffer as int)) by (nonlinear_arith)
            requires
                i64::MIN <= clamped <= i64::MAX,
                0 < cfg.funding_rate_buffer <= crate::config::MAX_PRECISION_SCALE,
        ;
    }
    let raw_wide: i128 = (clamped as i128) * (cfg.funding_rate_buffer as i128);
    let raw_divided: i128 = match raw_wide.checked_div(pa as i128) {
        Some(v) => v,
        None => {
            return Err(EngineError::RateComputation);
        },
    };
    if raw_divided < i64::MIN as i128 || raw_divided > i64::MAX as i128 {
        return Err(EngineError::RateComputation);
    }
    let raw: i64 = raw_divided as i64;

    let rates: (i64, i64) = calculate_funding_rate_long_short(
        raw,
        market.base_asset_amount_long,
        market.base_asset_amount_short,
    );
    let delta: i64 = if t2 > t1 {
        rates.1
    } else {
        rates.0
    };
    let direction: PositionDirection = if t2 > t1 {
        PositionDirection::Short
    } else {
        PositionDirection::Long
    };
    if t1 == 0 {
        return Err(EngineError::RateComputation);
    }

    proof {
        assert((delta as int) * (cfg.price_precision as int) < i128::MAX && i128::MIN < (
        delta as int) * (cfg.price_precision as int)) by (nonlinear_arith)
            requires
                i64::MIN <= delta <= i64::MAX,
                0 < cfg.price_precision <= crate::config::MAX_PRECISION_SCALE,
        ;
    }
    let scaled: i128 = (delta as i128) * (cfg.price_precision as i128);
    let per: i128 = match scaled.checked_div(t1 as i128) {
        Some(v) => v,
        None => {
            return Err(EngineError::RateComputation);
        },
    };
    proof {
        lemma_div_trunc_abs_le(scaled as int, t1 as int);
    }
    let mag: u128 = if per < 0 {
        (-per) as u128
    } else {
        per as u128
    };
    assert(mag == vstd::math::abs(div_trunc((delta as int) * (cfg.price_precision as int), t1 as int)));

    let a1: u128 = match mag.checked_mul(100) {
        Some(v) => v,
        None => {
            proof {
                lemma_mul_is_commutative(mag as int, 100);
                assert(mag as int * 876000 > u128::MAX) by (nonlinear_arith)
                    requires
                        mag as int * 100 > u128::MAX,
                        mag >= 0,
                ;
            }
            return Err(EngineError::RateComputation);
        },
    };
    let a2: u128 = match a1.checked_mul(24) {
        Some(v) => v,
        None => {
            proof {
                assert(mag as int * 876000 > u128::MAX) by (nonlinear_arith)
                    requires
                        (mag as int * 100) * 24 > u128::MAX,
                        mag >= 0,
                ;
            }
            return Err(EngineError::RateComputation);
        },
    };
    let apr: u128 = match a2.checked_mul(365) {
        Some(v) => v,
        None => {
            proof {
                assert(mag as int * 876000 > u128::MAX) by (nonlinear_arith)
                    requires
                        ((mag as int * 100) * 24) * 365 > u128::MAX,
                        mag >= 0,
                ;
            }
            return Err(EngineError::RateComputation);
        },
    };
    proof {
        assert(apr == mag as int * 876000) by (nonlinear_arith)
            requires
                apr == ((mag as int * 100) * 24) * 365,
        ;
    }

    market.amm.oracle_price_twap = t1;
    market.amm.mark_price_twap = t2;
    market.amm.last_update_timestamp = now;
    Ok(FundingDecision { annualized_funding_rate: apr, favored_direction: direction })
}

} // verus!
