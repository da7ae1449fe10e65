use vstd::prelude::*;

verus! {

use crate::error::EngineError;

/// The side of a perpetual position or of an order.
#[derive(Clone, Copy, Debug, PartialEq, Eq, Structural)]
pub enum PositionDirection {
    Long,
    Short,
}

/// Whether a spot balance is lent to the pool or borrowed from it.
#[derive(Clone, Copy, Debug, PartialEq, Eq, Structural)]
pub enum SpotBalanceType {
    Deposit,
    Borrow,
}

/// The scratch automated-market-maker state of a perpetual market that one
/// evaluation cycle reads and advances. The copy is local to the cycle; it
/// mirrors the venue's authoritative state without persisting back to it.
#[derive(Clone, Copy, Debug, PartialEq, Eq, Structural)]
pub struct AmmState {
    /// Time-weighted average of the oracle price, in fixed-point price
    /// precision.
    pub oracle_price_twap: i64,
    /// Time-weighted average of the mark price, in fixed-point price
    /// precision.
    pub mark_price_twap: i64,
    /// Long-side spread applied on top of the reserve price, in spread
    /// precision.
    pub long_spread: u64,
    /// Short-side spread applied below the reserve price, in spread
    /// precision.
    pub short_spread: u64,
    /// Length of one funding interval, in seconds.
    pub funding_period: i64,
    /// Minimum order-size granularity of the market.
    pub order_step_size: u64,
    /// Timestamp of the last time-weighted-average update, in seconds.
    pub last_update_timestamp: i64,
}

impl AmmState {
    /// Prices and timestamps are non-negative; only explicitly signed
    /// quantities (premiums, position amounts) carry a sign.
    pub open spec fn well_formed(&self) -> bool {
        &&& self.oracle_price_twap >= 0
        &&& self.mark_price_twap >= 0
        &&& self.last_update_timestamp >= 0
    }
}

/// A read-only snapshot of a perpetual market, reduced to the plain values
/// the rate engine reads.
#[derive(Clone, Copy, Debug, PartialEq, Eq, Structural)]
pub struct PerpMarketState {
    /// Stable index of the market on the venue.
    pub market_index: u16,
    /// The market's automated-market-maker state.
    pub amm: AmmState,
    /// The reserve (mid) price implied by the market's reserves, in
    /// fixed-point price precision.
    pub reserve_price: u64,
    /// Divisor that bounds how far one sample may move a time-weighted
    /// average away from its previous value.
    pub sanitize_clamp_denominator: i64,
    /// Total open interest held long, as a magnitude in base precision.
    pub base_asset_amount_long: u64,
    /// Total open interest held short, as a magnitude in base precision.
    pub base_asset_amount_short: u64,
}

impl PerpMarketState {
    pub open spec fn well_formed(&self) -> bool {
        &&& self.amm.well_formed()
        &&& self.sanitize_clamp_denominator > 0
    }
}

/// A read-only snapshot of a spot (lending) market, reduced to the plain
/// values the rate engine reads.
#[derive(Clone, Copy, Debug, PartialEq, Eq, Structural)]
pub struct SpotMarketState {
    /// Stable index of the market on the venue.
    pub market_index: u16,
    /// Sum of scaled deposit balances of the pool.
    pub deposit_balance: u128,
    /// Sum of scaled borrow balances of the pool.
    pub borrow_balance: u128,
    /// Cumulative interest accrued to deposits, in cumulative-interest
    /// precision.
    pub cumulative_deposit_interest: u128,
    /// Cumulative interest accrued to borrows, in cumulative-interest
    /// precision.
    pub cumulative_borrow_interest: u128,
    /// Number of decimals of the pool's token mint.
    pub decimals: u32,
    /// Utilization at which the borrow curve changes slope, in utilization
    /// precision.
    pub optimal_utilization: u32,
    /// Borrow rate at the optimal utilization, in utilization precision.
    pub optimal_borrow_rate: u32,
    /// Borrow rate at full utilization, in utilization precision.
    pub max_borrow_rate: u32,
    /// Minimum order-size granularity of the market.
    pub order_step_size: u64,
}

/// The exponent relating a scaled balance times a cumulative interest to a
/// token amount: `scaled * interest / 10^(19 - decimals)` is the token
/// amount in the mint's own decimals.
pub const BALANCE_TO_TOKEN_EXP: u32 = 19;

impl SpotMarketState {
    /// The token scaling rule only covers mints of at most 19 decimals.
    pub open spec fn well_formed(&self) -> bool {
        self.decimals <= BALANCE_TO_TOKEN_EXP
    }
}

/// A market snapshot fetched for one cycle: either a perpetual market or a
/// spot market.
#[derive(Clone, Copy, Debug, PartialEq, Eq, Structural)]
pub enum Market {
    Perp(PerpMarketState),
    Spot(SpotMarketState),
}

impl Market {
    /// The perpetual variant, or a typed error instead of an abort when the
    /// snapshot holds a spot market.
    pub fn as_perp(&self) -> (r: Result<&PerpMarketState, EngineError>)
        ensures
            match r {
                Ok(p) => self matches Market::Perp(q) && *p == q,
                Err(e) => self matches Market::Spot(_) && e == EngineError::WrongMarketKind,
            },
    {
        match self {
            Market::Perp(p) => Ok(p),
            Market::Spot(_) => Err(EngineError::WrongMarketKind),
        }
    }

    /// The spot variant, or a typed error instead of an abort when the
    /// snapshot holds a perpetual market.
    pub fn as_spot(&self) -> (r: Result<&SpotMarketState, EngineError>)
        ensures
            match r {
                Ok(s) => self matches Market::Spot(q) && *s == q,
                Err(e) => self matches Market::Perp(_) && e == EngineError::WrongMarketKind,
            },
    {
        match self {
            Market::Perp(_) => Err(EngineError::WrongMarketKind),
            Market::Spot(s) => Ok(s),
        }
    }
}

} // verus!
