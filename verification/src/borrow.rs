use vstd::prelude::*;

verus! {

use vstd::arithmetic::div_mod::lemma_div_is_ordered;
use vstd::arithmetic::div_mod::lemma_div_multiples_vanish;
use vstd::arithmetic::div_mod::lemma_div_pos_is_pos;
use vstd::arithmetic::div_mod::lemma_div_nonincreasing;
use vstd::arithmetic::mul::lemma_mul_inequality;
use vstd::arithmetic::mul::lemma_mul_is_commutative;
use vstd::arithmetic::mul::lemma_mul_nonnegative;
use vstd::arithmetic::mul::lemma_mul_upper_bound;
use crate::arith::lemma_pow10_128_bounds;
use crate::arith::lemma_pow10_increases;
use crate::arith::lemma_pow10_pos;
use crate::arith::pow10;
use crate::arith::pow10_u128;
use crate::config::EngineConfig;
use crate::error::EngineError;
use crate::market::SpotBalanceType;
use crate::market::SpotMarketState;
use crate::market::BALANCE_TO_TOKEN_EXP;

/// A scaled balance turned into a token amount: the balance times the
/// pool's cumulative interest, brought down to the mint's own decimals.
/// Deposits round down; borrows round up, so the pool never understates
/// what is owed to it.
pub open spec fn token_amount_of(balance: int, interest: int, decimals: nat, round_up: bool) -> int
    recommends
        decimals <= BALANCE_TO_TOKEN_EXP,
{
    let scale = pow10((BALANCE_TO_TOKEN_EXP - decimals) as nat) as int;
    let gross = balance * interest;
    if round_up {
        gross / scale + (if gross % scale == 0 {
            0int
        } else {
            1int
        })
    } else {
        gross / scale
    }
}

/// Whether the token-amount computation stays in the unsigned 128-bit
/// range.
pub open spec fn token_amount_ok(balance: int, interest: int) -> bool {
    balance * interest <= u128::MAX
}

/// The pool's utilization: borrowed tokens over all tokens, scaled to the
/// utilization precision. An empty pool has zero utilization.
pub open spec fn utilization_of(deposit_tokens: int, borrow_tokens: int, precision: int) -> int
    recommends
        deposit_tokens >= 0,
        borrow_tokens >= 0,
        precision > 0,
{
    if deposit_tokens + borrow_tokens == 0 {
        0
    } else {
        borrow_tokens * precision / (deposit_tokens + borrow_tokens)
    }
}

/// The two-segment piecewise-linear borrow curve over a utilization `u` in
/// `[0, precision]`. Below the optimal utilization the rate climbs from
/// zero to the optimal rate; at or above it, from the optimal rate to the
/// maximum rate at full utilization. Each segment multiplies before
/// dividing, so the segment endpoints are met exactly.
pub open spec fn borrow_rate_curve(
    u: int,
    optimal_utilization: int,
    optimal_borrow_rate: int,
    max_borrow_rate: int,
    precision: int,
) -> int
    recommends
        0 < optimal_utilization < precision,
        0 <= optimal_borrow_rate <= max_borrow_rate,
        0 <= u <= precision,
{
    if u <= optimal_utilization {
        u * optimal_borrow_rate / optimal_utilization
    } else {
        optimal_borrow_rate + (u - optimal_utilization) * (max_borrow_rate - optimal_borrow_rate)
            / (precision - optimal_utilization)
    }
}

/// The borrow rate the pool charges, or the exact failure the computation
/// surfaces: an overflowing token amount or utilization, or an invalid
/// curve configuration. A pool with zero utilization charges nothing,
/// before any configuration check.
pub open spec fn spec_compute_borrow_rate(m: SpotMarketState, precision: int) -> Result<
    int,
    EngineError,
>
    recommends
        m.well_formed(),
        precision > 0,
{
    if !token_amount_ok(m.deposit_balance as int, m.cumulative_deposit_interest as int) {
        Err(EngineError::RateComputation)
    } else if !token_amount_ok(m.borrow_balance as int, m.cumulative_borrow_interest as int) {
        Err(EngineError::RateComputation)
    } else {
        let deposit_tokens = token_amount_of(
            m.deposit_balance as int,
            m.cumulative_deposit_interest as int,
            m.decimals as nat,
            false,
        );
        let borrow_tokens = token_amount_of(
            m.borrow_balance as int,
            m.cumulative_borrow_interest as int,
            m.decimals as nat,
            true,
        );
        if borrow_tokens * precision > u128::MAX || deposit_tokens + borrow_tokens > u128::MAX {
            Err(EngineError::RateComputation)
        } else {
            let u = utilization_of(deposit_tokens, borrow_tokens, precision);
            if u == 0 {
                Ok(0)
            } else if m.optimal_utilization == 0 || m.optimal_utilization >= precision {
                Err(EngineError::RateComputation)
            } else if m.max_borrow_rate < m.optimal_borrow_rate {
                Err(EngineError::RateComputation)
            } else {
                Ok(
                    borrow_rate_curve(
                        u,
                        m.optimal_utilization as int,
                        m.optimal_borrow_rate as int,
                        m.max_borrow_rate as int,
                        precision,
                    ),
                )
            }
        }
    }
}

/// Converts a scaled balance of the given kind into a token amount via the
/// market's scaling rule. Fails exactly when the product of balance and
/// cumulative interest overflows the unsigned 128-bit range.
pub fn get_token_amount(
    balance: u128,
    market: &SpotMarketState,
    balance_type: SpotBalanceType,
) -> (r: Result<u128, EngineError>)
    requires
        market.well_formed(),
    ensures
        ({
            let interest = if balance_type == SpotBalanceType::Deposit {
                market.cumulative_deposit_interest as int
            } else {
                market.cumulative_borrow_interest as int
            };
            let round_up = balance_type == SpotBalanceType::Borrow;
            match r {
                Ok(t) => {
                    &&& token_amount_ok(balance as int, interest)
                    &&& t == token_amount_of(balance as int, interest, market.decimals as nat, round_up)
                },
                Err(e) => {
                    &&& !token_amount_ok(balance as int, interest)
                    &&& e == EngineError::RateComputation
                },
            }
        }),
{
    let exp: u32 = BALANCE_TO_TOKEN_EXP - market.decimals;
    proof {
        lemma_pow10_increases(exp as nat, 38);
        lemma_pow10_128_bounds();
        lemma_pow10_pos(exp as nat);
    }
    let scale: u128 = match pow10_u128(exp) {
        Some(s) => s,
        None => {
            return Err(EngineError::RateComputation);
        },
    };
    let interest: u128 = match balance_type {
        SpotBalanceType::Deposit => market.cumulative_deposit_interest,
        SpotBalanceType::Borrow => market.cumulative_borrow_interest,
    };
    let gross: u128 = match balance.checked_mul(interest) {
        Some(v) => v,
        None => {
            return Err(EngineError::RateComputation);
        },
    };
    let q: u128 = gross / scale;
    let rem: u128 = gross % scale;
    proof {
        lemma_div_nonincreasing(gross as int, scale as int);
        lemma_div_pos_is_pos(gross as int, scale as int);
    }
    match balance_type {
        SpotBalanceType::Deposit => Ok(q),
        SpotBalanceType::Borrow => {
            if rem == 0 {
                Ok(q)
            } else {
                assert(gross == scale * q + rem) by {
                    vstd::arithmetic::div_mod::lemma_fundamental_div_mod(
                        gross as int,
                        scale as int,
                    );
                }
                assert(q < u128::MAX) by {
                    lemma_mul_inequality(1, scale as int, q as int);
                }
                Ok(q + 1)
            }
        },
    }
}

/// The pool's utilization in utilization precision, or the exact overflow
/// failure. Mirrors `utilization_of` over the already-converted token
/// amounts.
pub fn calculate_utilization(
    cfg: &EngineConfig,
    deposit_tokens: u128,
    borrow_tokens: u128,
) -> (r: Result<u128, EngineError>)
    requires
        cfg.valid(),
    ensures
        ({
            let prec = cfg.utilization_precision as int;
            match r {
                Ok(u) => {
                    &&& borrow_tokens as int * prec <= u128::MAX
                    &&& deposit_tokens as int + borrow_tokens as int <= u128::MAX
                    &&& u == utilization_of(deposit_tokens as int, borrow_tokens as int, prec)
                    &&& u <= prec
                },
                Err(e) => {
                    &&& borrow_tokens as int * prec > u128::MAX || deposit_tokens as int
                        + borrow_tokens as int > u128::MAX
                    &&& e == EngineError::RateComputation
                },
            }
        }),
{
    let scaled: u128 = match borrow_tokens.checked_mul(cfg.utilization_precision) {
        Some(v) => v,
        None => {
            return Err(EngineError::RateComputation);
        },
    };
    let total: u128 = match deposit_tokens.checked_add(borrow_tokens) {
        Some(v) => v,
        None => {
            return Err(EngineError::RateComputation);
        },
    };
    if total == 0 {
        Ok(0)
    } else {
        let u: u128 = scaled / total;
        proof {
            lemma_mul_inequality(
                borrow_tokens as int,
                total as int,
                cfg.utilization_precision as int,
            );
            lemma_div_is_ordered(
                borrow_tokens as int * cfg.utilization_precision as int,
                total as int * cfg.utilization_precision as int,
                total as int,
            );
            lemma_div_multiples_vanish(cfg.utilization_precision as int, total as int);
            lemma_mul_is_commutative(total as int, cfg.utilization_precision as int);
            lemma_div_pos_is_pos(scaled as int, total as int);
        }
        Ok(u)
    }
}

/// Computes the pool's tiered borrow rate from its balances and curve
/// configuration. The result and every failure case follow
/// `spec_compute_borrow_rate` exactly.
pub fn compute_borrow_rate(cfg: &EngineConfig, spot_market: &SpotMarketState) -> (r: Result<
    u128,
    EngineError,
>)
    requires
        cfg.valid(),
        spot_market.well_formed(),
    ensures
        ({
            let s = spec_compute_borrow_rate(*spot_market, cfg.utilization_precision as int);
            match r {
                Ok(v) => s matches Ok(w) && v == w,
                Err(e) => s matches Err(w) && e == w,
            }
        }),
{
    let deposit_tokens: u128 = match get_token_amount(
        spot_market.deposit_balance,
        spot_market,
        SpotBalanceType::Deposit,
    ) {
        Ok(v) => v,
        Err(e) => {
            return Err(e);
        },
    };
    let borrow_tokens: u128 = match get_token_amount(
        spot_market.borrow_balance,
        spot_market,
        SpotBalanceType::Borrow,
    ) {
        Ok(v) => v,
        Err(e) => {
            return Err(e);
        },
    };
    let utilization: u128 = match calculate_utilization(cfg, deposit_tokens, borrow_tokens) {
        Ok(v) => v,
        Err(e) => {
            return Err(e);
        },
    };
    if utilization == 0 {
        return Ok(0);
    }
    let precision: u128 = cfg.utilization_precision;
    let optimal_utilization: u128 = spot_market.optimal_utilization as u128;
    let optimal_borrow_rate: u128 = spot_market.optimal_borrow_rate as u128;
    let max_borrow_rate: u128 = spot_market.max_borrow_rate as u128;
    if optimal_utilization == 0 || optimal_utilization >= precision {
        return Err(EngineError::RateComputation);
    }
    if max_borrow_rate < optimal_borrow_rate {
        return Err(EngineError::RateComputation);
    }
    if utilization <= optimal_utilization {
        proof {
            lemma_mul_upper_bound(
                utilization as int,
                crate::config::MAX_PRECISION_SCALE as int,
                optimal_borrow_rate as int,
                u32::MAX as int,
            );
            lemma_mul_nonnegative(utilization as int, optimal_borrow_rate as int);
            lemma_div_pos_is_pos(
                utilization as int * optimal_borrow_rate as int,
                optimal_utilization as int,
            );
        }
        let rate: u128 = (utilization * optimal_borrow_rate) / optimal_utilization;
        Ok(rate)
    } else {
        let surplus: u128 = utilization - optimal_utilization;
        let span: u128 = max_borrow_rate - optimal_borrow_rate;
        proof {
            lemma_mul_upper_bound(
                surplus as int,
                crate::config::MAX_PRECISION_SCALE as int,
                span as int,
                u32::MAX as int,
            );
            lemma_mul_nonnegative(surplus as int, span as int);
            lemma_div_pos_is_pos(surplus as int * span as int, precision as int - optimal_utilization as int);
            lemma_div_nonincreasing(surplus as int * span as int, precision as int - optimal_utilization as int);
        }
        let rate: u128 = optimal_borrow_rate + (surplus * span) / (precision - optimal_utilization);
        Ok(rate)
    }
}

/// On each segment of the borrow curve the rate is monotone: below the
/// optimal utilization a higher utilization never charges a lower rate.
pub proof fn lemma_borrow_rate_monotone_below(
    u1: int,
    u2: int,
    optimal_utilization: int,
    optimal_borrow_rate: int,
    max_borrow_rate: int,
    precision: int,
)
    requires
        0 < optimal_utilization < precision,
        0 <= optimal_borrow_rate <= max_borrow_rate,
        0 <= u1 <= u2 <= optimal_utilization,
    ensures
        borrow_rate_curve(u1, optimal_utilization, optimal_borrow_rate, max_borrow_rate, precision)
            <= borrow_rate_curve(
            u2,
            optimal_utilization,
            optimal_borrow_rate,
            max_borrow_rate,
            precision,
        ),
{
    lemma_mul_inequality(u1, u2, optimal_borrow_rate);
    lemma_mul_nonnegative(u1, optimal_borrow_rate);
    lemma_div_is_ordered(
        u1 * optimal_borrow_rate,
        u2 * optimal_borrow_rate,
        optimal_utilization,
    );
}

/// At the optimal utilization the curve meets the optimal borrow rate
/// exactly.
pub proof fn lemma_borrow_rate_at_optimal(
    optimal_utilization: int,
    optimal_borrow_rate: int,
    max_borrow_rate: int,
    precision: int,
)
    requires
        0 < optimal_utilization < precision,
        0 <= optimal_borrow_rate <= max_borrow_rate,
    ensures
        borrow_rate_curve(
            optimal_utilization,
            optimal_utilization,
            optimal_borrow_rate,
            max_borrow_rate,
            precision,
        ) == optimal_borrow_rate,
{
    lemma_mul_is_commutative(optimal_utilization, optimal_borrow_rate);
    lemma_div_multiples_vanish(optimal_borrow_rate, optimal_utilization);
}

/// Above the optimal utilization the curve is monotone as well: a higher
/// utilization never charges a lower rate.
pub proof fn lemma_borrow_rate_monotone_above(
    u1: int,
    u2: int,
    optimal_utilization: int,
    optimal_borrow_rate: int,
    max_borrow_rate: int,
    precision: int,
)
    requires
        0 < optimal_utilization < precision,
        0 <= optimal_borrow_rate <= max_borrow_rate,
        optimal_utilization <= u1 <= u2 <= precision,
    ensures
        borrow_rate_curve(u1, optimal_utilization, optimal_borrow_rate, max_borrow_rate, precision)
            <= borrow_rate_curve(
            u2,
            optimal_utilization,
            optimal_borrow_rate,
            max_borrow_rate,
            precision,
        ),
{
    if u1 <= optimal_utilization {
        lemma_borrow_rate_at_optimal(
            optimal_utilization,
            optimal_borrow_rate,
            max_borrow_rate,
            precision,
        );
        if u2 <= optimal_utilization {
        } else {
            lemma_mul_nonnegative(u2 - optimal_utilization, max_borrow_rate - optimal_borrow_rate);
            lemma_div_pos_is_pos(
                (u2 - optimal_utilization) * (max_borrow_rate - optimal_borrow_rate),
                precision - optimal_utilization,
            );
        }
    } else {
        lemma_mul_inequality(
            u1 - optimal_utilization,
            u2 - optimal_utilization,
            max_borrow_rate - optimal_borrow_rate,
        );
        lemma_mul_nonnegative(u1 - optimal_utilization, max_borrow_rate - optimal_borrow_rate);
        lemma_div_is_ordered(
            (u1 - optimal_utilization) * (max_borrow_rate - optimal_borrow_rate),
            (u2 - optimal_utilization) * (max_borrow_rate - optimal_borrow_rate),
            precision - optimal_utilization,
        );
    }
}

/// At full utilization the curve meets the maximum borrow rate exactly.
pub proof fn lemma_borrow_rate_at_full(
    optimal_utilization: int,
    optimal_borrow_rate: int,
    max_borrow_rate: int,
    precision: int,
)
    requires
        0 < optimal_utilization < precision,
        0 <= optimal_borrow_rate <= max_borrow_rate,
    ensures
        borrow_rate_curve(
            precision,
            optimal_utilization,
            optimal_borrow_rate,
            max_borrow_rate,
            precision,
        ) == max_borrow_rate,
{
    lemma_mul_is_commutative(
        precision - optimal_utilization,
        max_borrow_rate - optimal_borrow_rate,
    );
    lemma_div_multiples_vanish(
        max_borrow_rate - optimal_borrow_rate,
        precision - optimal_utilization,
    );
}

/// A pool with zero utilization charges nothing.
pub proof fn lemma_borrow_rate_at_zero(
    optimal_utilization: int,
    optimal_borrow_rate: int,
    max_borrow_rate: int,
    precision: int,
)
    requires
        0 < optimal_utilization < precision,
        0 <= optimal_borrow_rate <= max_borrow_rate,
    ensures
        borrow_rate_curve(
            0,
            optimal_utilization,
            optimal_borrow_rate,
            max_borrow_rate,
            precision,
        ) == 0,
{
    assert(0 * optimal_borrow_rate == 0) by {
        vstd::arithmetic::mul::lemma_mul_basics(optimal_borrow_rate);
        lemma_mul_is_commutative(0, optimal_borrow_rate);
    }
    vstd::arithmetic::div_mod::lemma_div_of0(optimal_utilization);
}

} // verus!
