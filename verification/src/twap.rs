use vstd::prelude::*;

verus! {

use crate::arith::clamp_to;
use crate::arith::div_trunc;
use crate::config::EngineConfig;
use crate::error::EngineError;
use crate::market::PerpMarketState;
use crate::market::PositionDirection;

/// A new sample, pulled toward the previous time-weighted average so that a
/// single step never moves the average by more than
/// `prev / clamp_denominator`. This bounds the average's reaction speed and
/// rejects single-sample price spikes.
pub open spec fn sanitized_sample(prev: int, sample: int, clamp_denominator: int) -> int
    recommends
        prev >= 0,
        clamp_denominator > 0,
{
    prev + clamp_to(sample - prev, prev / clamp_denominator)
}

/// The weight of the new sample: the elapsed time since the last update,
/// and at least one second.
pub open spec fn sample_weight(last_ts: int, now: int) -> int {
    vstd::math::max(1, now - last_ts)
}

/// The weight of the previous average: whatever remains of the averaging
/// period after the elapsed time.
pub open spec fn prev_weight(last_ts: int, now: int, period: int) -> int {
    vstd::math::max(0, period - sample_weight(last_ts, now))
}

/// One time-weighted-average step: the sanitized sample and the previous
/// average, blended with the weights above.
pub open spec fn twap_blend(
    prev: int,
    sample: int,
    last_ts: int,
    now: int,
    period: int,
    clamp_denominator: int,
) -> int
    recommends
        prev >= 0,
        clamp_denominator > 0,
{
    let s = sanitized_sample(prev, sample, clamp_denominator);
    let w1 = sample_weight(last_ts, now);
    let w2 = prev_weight(last_ts, now, period);
    div_trunc(s * w1 + prev * w2, w1 + w2)
}

/// Whether one time-weighted-average step stays inside the machine's
/// integer ranges: the blend numerator must fit the signed 128-bit range
/// and the blended value must fit the 64-bit price field.
pub open spec fn twap_blend_ok(
    prev: int,
    sample: int,
    last_ts: int,
    now: int,
    period: int,
    clamp_denominator: int,
) -> bool {
    let s = sanitized_sample(prev, sample, clamp_denominator);
    let w1 = sample_weight(last_ts, now);
    let w2 = prev_weight(last_ts, now, period);
    &&& s * w1 + prev * w2 <= i128::MAX
    &&& twap_blend(prev, sample, last_ts, now, period, clamp_denominator) <= i64::MAX
}

/// Advances one time-weighted average by one sample. The result is a
/// time-weighted blend in which the weight of the new sample grows with the
/// elapsed time, while the sample itself is first clamped to within
/// `prev_twap / clamp_denominator` of the previous average. Fails exactly
/// when the blend leaves the machine's integer ranges.
pub fn update_price_twap(
    prev_twap: i64,
    last_ts: i64,
    sample: i64,
    now: i64,
    funding_period: i64,
    clamp_denominator: i64,
) -> (r: Result<i64, EngineError>)
    requires
        prev_twap >= 0,
        clamp_denominator > 0,
    ensures
        match r {
            Ok(t) => {
                &&& twap_blend_ok(
                    prev_twap as int,
                    sample as int,
                    last_ts as int,
                    now as int,
                    funding_period as int,
                    clamp_denominator as int,
                )
                &&& t == twap_blend(
                    prev_twap as int,
                    sample as int,
                    last_ts as int,
                    now as int,
                    funding_period as int,
                    clamp_denominator as int,
                )
                &&& t >= 0
            },
            Err(e) => {
                &&& !twap_blend_ok(
                    prev_twap as int,
                    sample as int,
                    last_ts as int,
                    now as int,
                    funding_period as int,
                    clamp_denominator as int,
                )
                &&& e == EngineError::RateComputation
            },
        },
{
    let bound: i64 = ((prev_twap as u64) / (clamp_denominator as u64)) as i64;
    proof {
        vstd::arithmetic::div_mod::lemma_div_nonincreasing(
            prev_twap as int,
            clamp_denominator as int,
        );
        vstd::arithmetic::div_mod::lemma_div_pos_is_pos(prev_twap as int, clamp_denominator as int);
    }
    let spread: i128 = (sample as i128) - (prev_twap as i128);
    let clamped: i128 = {
        let capped: i128 = if spread < bound as i128 {
            spread
        } else {
            bound as i128
        };
        if capped < -(bound as i128) {
            -(bound as i128)
        } else {
            capped
        }
    };
    assert(clamped == clamp_to(sample - prev_twap, prev_twap as int / clamp_denominator as int));
    let s: i128 = (prev_twap as i128) + clamped;
    assert(s == sanitized_sample(prev_twap as int, sample as int, clamp_denominator as int));
    assert(0 <= s <= 2 * (prev_twap as i128));

    let dt: i128 = (now as i128) - (last_ts as i128);
    let w1: i128 = if dt < 1 {
        1
    } else {
        dt
    };
    assert(w1 == sample_weight(last_ts as int, now as int));
    let left: i128 = (funding_period as i128) - w1;
    let w2: i128 = if left < 0 {
        0
    } else {
        left
    };
    assert(w2 == prev_weight(last_ts as int, now as int, funding_period as int));

    proof {
        vstd::arithmetic::mul::lemma_mul_nonnegative(s as int, w1 as int);
        vstd::arithmetic::mul::lemma_mul_nonnegative(prev_twap as int, w2 as int);
    }
    let n1: i128 = match s.checked_mul(w1) {
        Some(v) => v,
        None => {
            return Err(EngineError::RateComputation);
        },
    };
    let n2: i128 = match (prev_twap as i128).checked_mul(w2) {
        Some(v) => v,
        None => {
            return Err(EngineError::RateComputation);
        },
    };
    let numerator: i128 = match n1.checked_add(n2) {
        Some(v) => v,
        None => {
            return Err(EngineError::RateComputation);
        },
    };
    let denominator: i128 = w1 + w2;
    let q: i128 = match numerator.checked_div(denominator) {
        Some(v) => v,
        None => {
            return Err(EngineError::RateComputation);
        },
    };
    proof {
        vstd::arithmetic::div_mod::lemma_div_pos_is_pos(numerator as int, denominator as int);
    }
    if q > i64::MAX as i128 {
        return Err(EngineError::RateComputation);
    }
    Ok(q as i64)
}

/// The price at which the market would fill an ask: the reserve price
/// lifted by the long-side spread.
pub open spec fn ask_price_of(reserve: int, long_spread: int, spread_precision: int) -> int
    recommends
        spread_precision > 0,
{
    reserve + (reserve * long_spread) / spread_precision
}

/// The price at which the market would fill a bid: the reserve price
/// lowered by the short-side spread.
pub open spec fn bid_price_of(reserve: int, short_spread: int, spread_precision: int) -> int
    recommends
        spread_precision > 0,
{
    reserve - (reserve * short_spread) / spread_precision
}

/// The mark-price sample for the time-weighted average, together with the
/// direction of the execution premium: the ask when the long spread
/// dominates, the bid when the short spread dominates, and the bare reserve
/// price when the spreads are equal.
pub open spec fn premium_price_of(m: PerpMarketState, spread_precision: int) -> int
    recommends
        spread_precision > 0,
{
    if m.amm.long_spread > m.amm.short_spread {
        ask_price_of(m.reserve_price as int, m.amm.long_spread as int, spread_precision)
    } else if m.amm.long_spread < m.amm.short_spread {
        bid_price_of(m.reserve_price as int, m.amm.short_spread as int, spread_precision)
    } else {
        m.reserve_price as int
    }
}

/// Whether the premium price fits the 64-bit price field.
pub open spec fn premium_price_ok(m: PerpMarketState, spread_precision: int) -> bool {
    0 <= premium_price_of(m, spread_precision) <= u64::MAX
}

/// Selects the side of the execution premium: the side whose spread
/// dominates, or none when the spreads are equal.
pub open spec fn premium_direction_of(m: PerpMarketState) -> Option<PositionDirection> {
    if m.amm.long_spread > m.amm.short_spread {
        Some(PositionDirection::Long)
    } else if m.amm.long_spread < m.amm.short_spread {
        Some(PositionDirection::Short)
    } else {
        None
    }
}

/// Computes the execution-premium price and direction used as the
/// mark-price sample. Fails exactly when the adjusted price leaves the
/// 64-bit range.
pub fn execution_premium(cfg: &EngineConfig, market: &PerpMarketState) -> (r: Result<
    (u64, Option<PositionDirection>),
    EngineError,
>)
    requires
        cfg.valid(),
    ensures
        match r {
            Ok(pd) => {
                &&& premium_price_ok(*market, cfg.spread_precision as int)
                &&& pd.0 == premium_price_of(*market, cfg.spread_precision as int)
                &&& pd.1 == premium_direction_of(*market)
            },
            Err(e) => {
                &&& !premium_price_ok(*market, cfg.spread_precision as int)
                &&& e == EngineError::RateComputation
            },
        },
{
    let reserve: u128 = market.reserve_price as u128;
    if market.amm.long_spread > market.amm.short_spread {
        proof {
            vstd::arithmetic::mul::lemma_mul_upper_bound(
                reserve as int,
                u64::MAX as int,
                market.amm.long_spread as int,
                u64::MAX as int,
            );
            vstd::arithmetic::div_mod::lemma_div_pos_is_pos(
                reserve as int * market.amm.long_spread as int,
                cfg.spread_precision as int,
            );
        }
        let adjustment: u128 = (reserve * (market.amm.long_spread as u128)) / cfg.spread_precision;
        let ask: u128 = match reserve.checked_add(adjustment) {
            Some(v) => v,
            None => {
                return Err(EngineError::RateComputation);
            },
        };
        if ask > u64::MAX as u128 {
            return Err(EngineError::RateComputation);
        }
        Ok((ask as u64, Some(PositionDirection::Long)))
    } else if market.amm.long_spread < market.amm.short_spread {
        proof {
            vstd::arithmetic::mul::lemma_mul_upper_bound(
                reserve as int,
                u64::MAX as int,
                market.amm.short_spread as int,
                u64::MAX as int,
            );
            vstd::arithmetic::div_mod::lemma_div_pos_is_pos(
                reserve as int * market.amm.short_spread as int,
                cfg.spread_precision as int,
            );
        }
        let adjustment: u128 = (reserve * (market.amm.short_spread as u128)) / cfg.spread_precision;
        if adjustment > reserve {
            return Err(EngineError::RateComputation);
        }
        let bid: u128 = reserve - adjustment;
        Ok((bid as u64, Some(PositionDirection::Short)))
    } else {
        Ok((market.reserve_price, None))
    }
}

} // verus!
