use vstd::prelude::*;

verus! {

/// The largest precision scale the engine accepts. Bounding the scales lets
/// every intermediate product be carried in 128-bit integers.
pub const MAX_PRECISION_SCALE: u128 = 1_000_000_000_000_000_000;

/// The immutable fixed-point configuration the engine is constructed with.
/// The venue's precision scales are passed in explicitly rather than read
/// from ambient globals, so the engine can be exercised with synthetic
/// precisions.
#[derive(Clone, Copy, Debug, PartialEq, Eq, Structural)]
pub struct EngineConfig {
    /// Scale of the fixed-point price representation.
    pub price_precision: u128,
    /// Extra scale applied to a price premium when it becomes a per-period
    /// funding rate.
    pub funding_rate_buffer: u128,
    /// Scale of the bid/ask spread fields of a perpetual market.
    pub spread_precision: u128,
    /// Scale of a lending pool's utilization ratio and of its configured
    /// borrow rates.
    pub utilization_precision: u128,
    /// Factor that lifts a borrow rate onto the same scale as the
    /// annualized funding rate before the two are compared.
    pub borrow_rate_scale: u128,
}

impl EngineConfig {
    /// Every precision scale is positive and small enough that the rate
    /// math cannot overflow 128-bit intermediates.
    pub open spec fn valid(&self) -> bool {
        &&& 0 < self.price_precision <= MAX_PRECISION_SCALE
        &&& 0 < self.funding_rate_buffer <= MAX_PRECISION_SCALE
        &&& 0 < self.spread_precision <= MAX_PRECISION_SCALE
        &&& 0 < self.utilization_precision <= MAX_PRECISION_SCALE
        &&& 0 < self.borrow_rate_scale <= MAX_PRECISION_SCALE
    }

    /// The venue's production precision scales.
    pub fn standard() -> (c: EngineConfig)
        ensures
            c.valid(),
            c.price_precision == 1_000_000u128,
            c.funding_rate_buffer == 1_000u128,
            c.spread_precision == 1_000_000u128,
            c.utilization_precision == 1_000_000u128,
            c.borrow_rate_scale == 100_000u128,
    {
        EngineConfig {
            price_precision: 1_000_000,
            funding_rate_buffer: 1_000,
            spread_precision: 1_000_000,
            utilization_precision: 1_000_000,
            borrow_rate_scale: 100_000,
        }
    }
}

} // verus!
