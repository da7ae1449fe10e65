use vstd::prelude::*;

verus! {

use crate::arith::div_trunc;
use crate::arith::lemma_pow10_in_u128;
use crate::arith::lemma_pow10_pos;
use crate::arith::pow10;
use crate::arith::pow10_u128;
use crate::config::EngineConfig;
use crate::error::EngineError;

/// One raw reading of an external price feed, in the feed's own decimal
/// scale: the quoted price, its confidence interval, the decimal exponent
/// of both, and the feed's own data-sufficiency flag.
#[derive(Clone, Copy, Debug, PartialEq, Eq, Structural)]
pub struct OracleReading {
    pub price: i64,
    pub confidence: u64,
    pub exponent: i32,
    pub has_sufficient_data: bool,
}

/// An oracle price normalized into the engine's fixed-point price
/// precision. Produced fresh on every evaluation; never persisted.
#[derive(Clone, Copy, Debug, PartialEq, Eq, Structural)]
pub struct OraclePriceData {
    /// The normalized price, in fixed-point price precision.
    pub price: i64,
    /// The normalized confidence interval, in fixed-point price precision.
    pub confidence: u64,
    /// Staleness of the reading; the caller supplies a fresh read, so this
    /// is fixed at zero.
    pub delay: i64,
    /// Asserted at this layer; a reading without sufficient data is
    /// rejected before normalization.
    pub has_sufficient_number_of_data_points: bool,
}

/// The magnitude of a feed exponent.
pub open spec fn expo_magnitude(exponent: int) -> nat {
    vstd::math::abs(exponent)
}

/// A raw feed price scaled into price precision `pp`: divided when the
/// feed's scale `10^e` exceeds `pp`, multiplied otherwise. Division
/// truncates toward zero, as the venue's integer math does.
pub open spec fn normalized_price(price: int, e: nat, pp: int) -> int
    recommends
        0 < pp,
{
    if pow10(e) > pp {
        div_trunc(price, pow10(e) as int / pp)
    } else {
        price * (pp / pow10(e) as int)
    }
}

/// A raw feed confidence scaled into price precision `pp` by the same
/// factor as the price.
pub open spec fn normalized_confidence(conf: int, e: nat, pp: int) -> int
    recommends
        0 < pp,
{
    if pow10(e) > pp {
        conf / (pow10(e) as int / pp)
    } else {
        conf * (pp / pow10(e) as int)
    }
}

/// Whether normalization succeeds: the feed scale must fit the unsigned
/// 128-bit range and the scaled price and confidence must fit their
/// fixed-width output types.
pub open spec fn normalize_ok(price: int, conf: int, e: nat, pp: int) -> bool {
    &&& pow10(e) <= u128::MAX
    &&& i64::MIN <= normalized_price(price, e, pp) <= i64::MAX
    &&& normalized_confidence(conf, e, pp) <= u64::MAX
}

/// Converts one raw feed reading into the engine's fixed-point price
/// representation, applying the same scale factor to the price and to its
/// confidence interval. Fails exactly when the scale ratio or the scaled
/// values overflow their integer ranges.
pub fn normalize_oracle_price(
    cfg: &EngineConfig,
    price: i64,
    confidence: u64,
    exponent: i32,
) -> (r: Result<OraclePriceData, EngineError>)
    requires
        cfg.valid(),
    ensures
        ({
            let e = expo_magnitude(exponent as int);
            let pp = cfg.price_precision as int;
            match r {
                Ok(o) => {
                    &&& normalize_ok(price as int, confidence as int, e, pp)
                    &&& o.price == normalized_price(price as int, e, pp)
                    &&& o.confidence == normalized_confidence(confidence as int, e, pp)
                    &&& o.delay == 0
                    &&& o.has_sufficient_number_of_data_points
                },
                Err(err) => {
                    &&& !normalize_ok(price as int, confidence as int, e, pp)
                    &&& err == EngineError::PriceConversion
                },
            }
        }),
{
    let e: u32 = if exponent < 0 {
        (-(exponent as i64)) as u32
    } else {
        exponent as u32
    };
    assert(e as nat == expo_magnitude(exponent as int));

    let feed: u128 = match pow10_u128(e) {
        Some(f) => f,
        None => {
            return Err(EngineError::PriceConversion);
        },
    };
    proof {
        lemma_pow10_pos(e as nat);
        lemma_pow10_in_u128(e as nat);
    }

    let pp: u128 = cfg.price_precision;
    if feed > pp {
        let d: u128 = feed / pp;
        proof {
            vstd::arithmetic::div_mod::lemma_div_non_zero(feed as int, pp as int);
            vstd::arithmetic::div_mod::lemma_div_nonincreasing(feed as int, pp as int);
        }
        assert(1 <= d <= feed);
        let di: i128 = d as i128;
        let scaled_price: i128 = match (price as i128).checked_div(di) {
            Some(v) => v,
            None => {
                return Err(EngineError::PriceConversion);
            },
        };
        proof {
            crate::arith::lemma_div_trunc_abs_le(price as int, d as int);
        }
        let scaled_conf: u128 = (confidence as u128) / d;
        proof {
            vstd::arithmetic::div_mod::lemma_div_nonincreasing(confidence as int, d as int);
            vstd::arithmetic::div_mod::lemma_div_pos_is_pos(confidence as int, d as int);
        }
        Ok(OraclePriceData {
            price: scaled_price as i64,
            confidence: scaled_conf as u64,
            delay: 0,
            has_sufficient_number_of_data_points: true,
        })
    } else {
        let m: u128 = pp / feed;
        proof {
            vstd::arithmetic::div_mod::lemma_div_non_zero(pp as int, feed as int);
            vstd::arithmetic::div_mod::lemma_div_nonincreasing(pp as int, feed as int);
            vstd::arithmetic::mul::lemma_mul_inequality(i64::MIN as int, price as int, m as int);
            vstd::arithmetic::mul::lemma_mul_inequality(price as int, i64::MAX as int, m as int);
            assert(i64::MAX * (m as int) < i128::MAX) by (nonlinear_arith)
                requires
                    0 < m <= crate::config::MAX_PRECISION_SCALE,
            ;
            assert(i64::MIN * (m as int) > i128::MIN) by (nonlinear_arith)
                requires
                    0 < m <= crate::config::MAX_PRECISION_SCALE,
            ;
            assert((confidence as int) * (m as int) <= u64::MAX * (m as int)) by {
                vstd::arithmetic::mul::lemma_mul_inequality(
                    confidence as int,
                    u64::MAX as int,
                    m as int,
                );
            }
            assert(u64::MAX * (m as int) < u128::MAX) by (nonlinear_arith)
                requires
                    0 < m <= crate::config::MAX_PRECISION_SCALE,
            ;
        }
        let scaled_price: i128 = (price as i128) * (m as i128);
        let scaled_conf: u128 = (confidence as u128) * m;
        if scaled_price > i64::MAX as i128 || scaled_price < i64::MIN as i128 {
            return Err(EngineError::PriceConversion);
        }
        if scaled_conf > u64::MAX as u128 {
            return Err(EngineError::PriceConversion);
        }
        Ok(OraclePriceData {
            price: scaled_price as i64,
            confidence: scaled_conf as u64,
            delay: 0,
            has_sufficient_number_of_data_points: true,
        })
    }
}

} // verus!
