use vstd::prelude::*;

verus! {

use vstd::arithmetic::div_mod::lemma_fundamental_div_mod;
use vstd::arithmetic::div_mod::lemma_mod_multiples_basic;
use vstd::arithmetic::div_mod::lemma_small_mod;
use vstd::arithmetic::div_mod::lemma_sub_mod_noop;
use crate::borrow::get_token_amount;
use crate::borrow::token_amount_of;
use crate::borrow::token_amount_ok;
use crate::error::EngineError;
use crate::funding::FundingDecision;
use crate::market::PositionDirection;
use crate::market::SpotBalanceType;
use crate::market::SpotMarketState;

/// The kind of order the planner emits; only market orders are used.
#[derive(Clone, Copy, Debug, PartialEq, Eq, Structural)]
pub enum OrderType {
    Market,
}

/// Which venue book an order targets.
#[derive(Clone, Copy, Debug, PartialEq, Eq, Structural)]
pub enum MarketType {
    Perp,
    Spot,
}

/// One abstract order intent handed to the external dispatcher, which
/// translates it into the venue's wire format.
#[derive(Clone, Copy, Debug, PartialEq, Eq, Structural)]
pub struct OrderIntent {
    pub order_type: OrderType,
    pub market_type: MarketType,
    pub direction: PositionDirection,
    pub base_asset_amount: u64,
    pub market_index: u16,
    pub reduce_only: bool,
}

/// Fills in an order intent from its six defining fields.
pub fn get_order_params(
    order_type: OrderType,
    market_type: MarketType,
    direction: PositionDirection,
    base_asset_amount: u64,
    market_index: u16,
    reduce_only: bool,
) -> (p: OrderIntent)
    ensures
        p == (OrderIntent {
            order_type,
            market_type,
            direction,
            base_asset_amount,
            market_index,
            reduce_only,
        }),
{
    OrderIntent { order_type, market_type, direction, base_asset_amount, market_index, reduce_only }
}

/// An open perpetual position: a signed base amount whose sign is the
/// position's direction. Absence of a position means flat.
#[derive(Clone, Copy, Debug, PartialEq, Eq, Structural)]
pub struct PerpPosition {
    pub base_asset_amount: i64,
}

/// The direction a signed base amount is held in; a flat amount counts as
/// long.
pub open spec fn direction_of_base(base: int) -> PositionDirection {
    if base >= 0 {
        PositionDirection::Long
    } else {
        PositionDirection::Short
    }
}

/// The direction of the order that closes a position with the given signed
/// base amount.
pub open spec fn close_direction_of_base(base: int) -> PositionDirection {
    if base > 0 {
        PositionDirection::Short
    } else {
        PositionDirection::Long
    }
}

/// The order direction that closes a position of the given signed size.
pub fn direction_to_close_position(base_asset_amount: i64) -> (d: PositionDirection)
    ensures
        d == close_direction_of_base(base_asset_amount as int),
{
    if base_asset_amount > 0 {
        PositionDirection::Short
    } else {
        PositionDirection::Long
    }
}

impl PerpPosition {
    /// The direction the position is held in.
    pub fn get_direction(&self) -> (d: PositionDirection)
        ensures
            d == direction_of_base(self.base_asset_amount as int),
    {
        if self.base_asset_amount >= 0 {
            PositionDirection::Long
        } else {
            PositionDirection::Short
        }
    }
}

/// An open spot balance: a scaled balance and whether it is deposited or
/// borrowed. The token amount is derived through the spot market's scaling
/// rule, not stored.
#[derive(Clone, Copy, Debug, PartialEq, Eq, Structural)]
pub struct SpotPosition {
    pub scaled_balance: u64,
    pub balance_type: SpotBalanceType,
}

/// The token amount a spot position represents, signed positive for a
/// deposit and negative for a borrow.
pub open spec fn signed_token_amount_of(pos: SpotPosition, m: SpotMarketState) -> int
    recommends
        m.well_formed(),
{
    match pos.balance_type {
        SpotBalanceType::Deposit => token_amount_of(
            pos.scaled_balance as int,
            m.cumulative_deposit_interest as int,
            m.decimals as nat,
            false,
        ),
        SpotBalanceType::Borrow => -token_amount_of(
            pos.scaled_balance as int,
            m.cumulative_borrow_interest as int,
            m.decimals as nat,
            true,
        ),
    }
}

/// Whether the signed token amount of a spot position stays inside the
/// machine's integer ranges.
pub open spec fn signed_token_amount_ok(pos: SpotPosition, m: SpotMarketState) -> bool {
    match pos.balance_type {
        SpotBalanceType::Deposit => token_amount_ok(
            pos.scaled_balance as int,
            m.cumulative_deposit_interest as int,
        ) && signed_token_amount_of(pos, m) <= i128::MAX,
        SpotBalanceType::Borrow => token_amount_ok(
            pos.scaled_balance as int,
            m.cumulative_borrow_interest as int,
        ) && -signed_token_amount_of(pos, m) <= i128::MAX,
    }
}

/// Derives the signed token amount of a spot position via the spot
/// market's scaling rule. Fails exactly when the conversion leaves the
/// machine's integer ranges.
pub fn get_signed_token_amount(pos: &SpotPosition, market: &SpotMarketState) -> (r: Result<
    i128,
    EngineError,
>)
    requires
        market.well_formed(),
    ensures
        match r {
            Ok(t) => {
                &&& signed_token_amount_ok(*pos, *market)
                &&& t == signed_token_amount_of(*pos, *market)
                &&& (pos.balance_type == SpotBalanceType::Deposit ==> t >= 0)
                &&& (pos.balance_type == SpotBalanceType::Borrow ==> t <= 0)
            },
            Err(e) => !signed_token_amount_ok(*pos, *market) && e == EngineError::RateComputation,
        },
{
    let unsigned: u128 = match get_token_amount(
        pos.scaled_balance as u128,
        market,
        pos.balance_type,
    ) {
        Ok(v) => v,
        Err(e) => {
            return Err(e);
        },
    };
    if unsigned > i128::MAX as u128 {
        return Err(EngineError::RateComputation);
    }
    match pos.balance_type {
        SpotBalanceType::Deposit => Ok(unsigned as i128),
        SpotBalanceType::Borrow => Ok(-(unsigned as i128)),
    }
}

/// Everything the planner needs to know about the account: its open
/// positions on the two legs and whether margin trading is enabled.
#[derive(Clone, Copy, Debug, PartialEq, Eq, Structural)]
pub struct AccountState {
    pub perp_position: Option<PerpPosition>,
    pub spot_position: Option<SpotPosition>,
    pub margin_trading_enabled: bool,
}

/// The net carry of the hedge and the close decision: the borrow cost is
/// subtracted from the funding income with saturation, and the hedge is
/// unwound exactly when nothing is left. The policy is binary: any
/// positive net carry keeps the target sizing, any non-positive net carry
/// closes, with no hysteresis band near zero.
pub fn profitability_gate(annualized_funding_rate: u128, borrow_rate: u128) -> (r: (u128, bool))
    ensures
        r.0 == (if annualized_funding_rate >= borrow_rate {
            annualized_funding_rate - borrow_rate
        } else {
            0int
        }),
        r.1 <==> annualized_funding_rate <= borrow_rate,
{
    let delta = annualized_funding_rate.saturating_sub(borrow_rate);
    (delta, delta == 0)
}

/// The smallest multiple of `k` that is at least `s`.
pub open spec fn round_up_to_step(s: int, k: int) -> int
    recommends
        k > 0,
        s >= 0,
{
    if s % k == 0 {
        s
    } else {
        s + (k - s % k)
    }
}

/// Rounding up to a step multiple never shrinks the size.
pub proof fn lemma_round_up_ge(s: int, k: int)
    requires
        k > 0,
        s >= 0,
    ensures
        round_up_to_step(s, k) >= s,
{
    if s % k != 0 {
        vstd::arithmetic::div_mod::lemma_mod_bound(s, k);
    }
}

/// The rounded size is a multiple of the step and overshoots the intended
/// size by less than one step.
pub proof fn lemma_round_up_quantizes(s: int, k: int)
    requires
        k > 0,
        s >= 0,
    ensures
        round_up_to_step(s, k) % k == 0,
        s <= round_up_to_step(s, k) < s + k,
{
    let r = round_up_to_step(s, k);
    lemma_fundamental_div_mod(s, k);
    vstd::arithmetic::div_mod::lemma_mod_bound(s, k);
    if s % k != 0 {
        assert(r == (s / k + 1) * k) by {
            vstd::arithmetic::mul::lemma_mul_is_distributive_add_other_way(k, s / k, 1);
            vstd::arithmetic::mul::lemma_mul_is_commutative(s / k + 1, k);
            vstd::arithmetic::mul::lemma_mul_is_commutative(s / k, k);
        }
        lemma_mod_multiples_basic(s / k + 1, k);
    } else {
        lemma_mod_multiples_basic(s / k, k);
        assert(r == (s / k) * k) by {
            vstd::arithmetic::mul::lemma_mul_is_commutative(s / k, k);
        }
    }
}

/// Rounds an order size up to the nearest multiple of the market's step
/// size, so quantization never rounds below the intended exposure.
pub fn standardize_base_asset_amount_ceil(base_asset_amount: u64, step_size: u64) -> (r: u64)
    requires
        step_size > 0,
        round_up_to_step(base_asset_amount as int, step_size as int) <= u64::MAX,
    ensures
        r == round_up_to_step(base_asset_amount as int, step_size as int),
        r % step_size == 0,
        base_asset_amount <= r,
        r < base_asset_amount + step_size,
        forall|m: int|
            #[trigger] (m % (step_size as int)) == 0 && base_asset_amount <= m ==> r <= m,
{
    let rem: u64 = base_asset_amount % step_size;
    proof {
        vstd::arithmetic::div_mod::lemma_mod_bound(base_asset_amount as int, step_size as int);
        if (base_asset_amount as int) < (step_size as int) {
            lemma_small_mod(base_asset_amount as nat, step_size as nat);
        }
    }
    let r: u64 = if rem == 0 {
        base_asset_amount
    } else {
        base_asset_amount - rem + step_size
    };
    proof {
        let s = base_asset_amount as int;
        let k = step_size as int;
        lemma_fundamental_div_mod(s, k);
        if s % k != 0 {
            assert(r == (s / k + 1) * k) by {
                vstd::arithmetic::mul::lemma_mul_is_distributive_add_other_way(k, s / k, 1);
                vstd::arithmetic::mul::lemma_mul_is_commutative(s / k + 1, k);
                vstd::arithmetic::mul::lemma_mul_is_commutative(s / k, k);
            }
            lemma_mod_multiples_basic(s / k + 1, k);
        } else {
            lemma_mod_multiples_basic(s / k, k);
            assert(r == (s / k) * k) by {
                vstd::arithmetic::mul::lemma_mul_is_commutative(s / k, k);
            }
        }
        lemma_small_mod(0nat, k as nat);
        assert forall|m: int| #[trigger] (m % k) == 0 && s <= m implies r as int <= m by {
            if m < r as int {
                lemma_sub_mod_noop(r as int, m, k);
                assert((r as int - m) % k == 0);
                lemma_small_mod((r as int - m) as nat, k as nat);
            }
        }
    }
    r
}

/// The spot balance type that realizes delta-neutrality against a funding
/// position in the favored direction: a favored long perp pairs with a
/// spot borrow, a favored short perp with a spot deposit.
pub open spec fn target_spot_balance_type(favored: PositionDirection) -> SpotBalanceType {
    match favored {
        PositionDirection::Long => SpotBalanceType::Borrow,
        PositionDirection::Short => SpotBalanceType::Deposit,
    }
}

/// The order direction that moves the spot leg toward the target balance
/// type.
pub open spec fn spot_open_direction(target: SpotBalanceType) -> PositionDirection {
    match target {
        SpotBalanceType::Borrow => PositionDirection::Short,
        SpotBalanceType::Deposit => PositionDirection::Long,
    }
}

/// The unquantized perpetual-leg decision: open the target size when flat,
/// fully close when the carry has stopped paying, close-and-flip in one
/// order when the held direction mismatches the favored one, and
/// otherwise do nothing.
pub open spec fn perp_order_plan(
    pos: Option<PerpPosition>,
    should_close: bool,
    favored: PositionDirection,
    target_size: int,
) -> Option<(int, PositionDirection)> {
    match pos {
        None => Some((target_size, favored)),
        Some(p) => {
            let base = p.base_asset_amount as int;
            if should_close {
                Some((vstd::math::abs(base) as int, close_direction_of_base(base)))
            } else if base != 0 && direction_of_base(base) != favored {
                Some((vstd::math::abs(base) + target_size, favored))
            } else {
                None
            }
        },
    }
}

/// The unquantized spot-leg decision, mirroring the perpetual leg's four
/// cases over the signed token amount and the opposite balance-type
/// target. A close order unwinds the position actually held: it sells a
/// deposit and buys back a borrow, whatever the target side is.
pub open spec fn spot_order_plan(
    pos: Option<SpotPosition>,
    token_amount: int,
    should_close: bool,
    target: SpotBalanceType,
    target_size: int,
) -> Option<(int, PositionDirection)> {
    match pos {
        None => Some((target_size, spot_open_direction(target))),
        Some(sp) => {
            if should_close {
                Some((vstd::math::abs(token_amount) as int, close_direction_of_base(token_amount)))
            } else if sp.scaled_balance != 0 && sp.balance_type != target {
                Some((vstd::math::abs(token_amount) + target_size, spot_open_direction(target)))
            } else {
                None
            }
        },
    }
}

/// Whether the perpetual-leg order, if any, fits the 64-bit order size
/// after quantization.
pub open spec fn perp_plan_fits(
    pos: Option<PerpPosition>,
    should_close: bool,
    favored: PositionDirection,
    target_size: int,
    step: int,
) -> bool {
    match perp_order_plan(pos, should_close, favored, target_size) {
        None => true,
        Some(sd) => round_up_to_step(sd.0, step) <= u64::MAX,
    }
}

/// Whether the spot-leg order, if any, fits the 64-bit order size after
/// quantization, whenever the token conversion itself succeeds.
pub open spec fn spot_plan_fits(
    pos: Option<SpotPosition>,
    m: SpotMarketState,
    should_close: bool,
    target: SpotBalanceType,
    target_size: int,
    step: int,
) -> bool {
    match pos {
        None => round_up_to_step(target_size, step) <= u64::MAX,
        Some(sp) => signed_token_amount_ok(sp, m) ==> match spot_order_plan(
            pos,
            signed_token_amount_of(sp, m),
            should_close,
            target,
            target_size,
        ) {
            None => true,
            Some(sd) => round_up_to_step(sd.0, step) <= u64::MAX,
        },
    }
}

/// The rebalancing instructions one cycle emits: at most one intent per
/// leg, a one-time margin-enable request, and the close gate's verdict.
/// Consumed once by the dispatcher; never persisted.
#[derive(Clone, Copy, Debug, PartialEq, Eq, Structural)]
pub struct RebalancePlan {
    pub perp_order: Option<OrderIntent>,
    pub spot_order: Option<OrderIntent>,
    pub enable_margin_trading: bool,
    pub should_close: bool,
}

/// The plan the planner owes for the given inputs, or the exact failure of
/// the spot leg's token conversion.
pub open spec fn spec_plan(
    annualized_funding_rate: int,
    favored: PositionDirection,
    borrow_rate: int,
    target_size: int,
    account: AccountState,
    spot_market: SpotMarketState,
    perp_market_index: int,
    perp_step: int,
) -> Result<RebalancePlan, EngineError>
    recommends
        spot_market.well_formed(),
        perp_step > 0,
        spot_market.order_step_size > 0,
{
    let should_close = annualized_funding_rate <= borrow_rate;
    let target = target_spot_balance_type(favored);
    let perp_order = match perp_order_plan(
        account.perp_position,
        should_close,
        favored,
        target_size,
    ) {
        None => None,
        Some(sd) => Some(
            OrderIntent {
                order_type: OrderType::Market,
                market_type: MarketType::Perp,
                direction: sd.1,
                base_asset_amount: round_up_to_step(sd.0, perp_step) as u64,
                market_index: perp_market_index as u16,
                reduce_only: false,
            },
        ),
    };
    let token_conversion_fails = match account.spot_position {
        None => false,
        Some(sp) => !signed_token_amount_ok(sp, spot_market),
    };
    if token_conversion_fails {
        Err(EngineError::RateComputation)
    } else {
        let token_amount = match account.spot_position {
            None => 0int,
            Some(sp) => signed_token_amount_of(sp, spot_market),
        };
        let spot_order = match spot_order_plan(
            account.spot_position,
            token_amount,
            should_close,
            target,
            target_size,
        ) {
            None => None,
            Some(sd) => Some(
                OrderIntent {
                    order_type: OrderType::Market,
                    market_type: MarketType::Spot,
                    direction: sd.1,
                    base_asset_amount: round_up_to_step(
                        sd.0,
                        spot_market.order_step_size as int,
                    ) as u64,
                    market_index: spot_market.market_index,
                    reduce_only: false,
                },
            ),
        };
        Ok(
            RebalancePlan {
                perp_order,
                spot_order,
                enable_margin_trading: !account.margin_trading_enabled,
                should_close,
            },
        )
    }
}

/// Computes the rebalancing instructions that move the account toward the
/// profitable hedge or fully unwind it, quantizing every order size up to
/// the market's step. Performs no input or output; the caller dispatches
/// the intents.
pub fn plan_rebalance(
    funding: &FundingDecision,
    borrow_rate: u128,
    target_position_size: u64,
    account: &AccountState,
    spot_market: &SpotMarketState,
    perp_market_index: u16,
    perp_step: u64,
) -> (r: Result<RebalancePlan, EngineError>)
    requires
        spot_market.well_formed(),
        perp_step > 0,
        spot_market.order_step_size > 0,
        perp_plan_fits(
            account.perp_position,
            funding.annualized_funding_rate <= borrow_rate,
            funding.favored_direction,
            target_position_size as int,
            perp_step as int,
        ),
        spot_plan_fits(
            account.spot_position,
            *spot_market,
            funding.annualized_funding_rate <= borrow_rate,
            target_spot_balance_type(funding.favored_direction),
            target_position_size as int,
            spot_market.order_step_size as int,
        ),
    ensures
        ({
            let s = spec_plan(
                funding.annualized_funding_rate as int,
                funding.favored_direction,
                borrow_rate as int,
                target_position_size as int,
                *account,
                *spot_market,
                perp_market_index as int,
                perp_step as int,
            );
            match r {
                Ok(p) => s matches Ok(q) && p == q,
                Err(e) => s matches Err(e2) && e == e2,
            }
        }),
{
    let gate = profitability_gate(funding.annualized_funding_rate, borrow_rate);
    let should_close = gate.1;
    let favored = funding.favored_direction;
    let target = match favored {
        PositionDirection::Long => SpotBalanceType::Borrow,
        PositionDirection::Short => SpotBalanceType::Deposit,
    };

    let perp_decision: Option<(u64, PositionDirection)> = match &account.perp_position {
        None => Some((target_position_size, favored)),
        Some(p) => {
            let base = p.base_asset_amount;
            proof {
                lemma_round_up_ge(vstd::math::abs(base as int) as int, perp_step as int);
                lemma_round_up_ge(
                    vstd::math::abs(base as int) + target_position_size as int,
                    perp_step as int,
                );
                lemma_round_up_ge(target_position_size as int, perp_step as int);
            }
            let magnitude: u64 = if base < 0 {
                ((-(base as i128)) as u64)
            } else {
                base as u64
            };
            if should_close {
                Some((magnitude, direction_to_close_position(base)))
            } else {
                let held = p.get_direction();
                if base != 0 && !matches_direction(held, favored) {
                    Some((magnitude + target_position_size, favored))
                } else {
                    None
                }
            }
        },
    };
    let perp_order: Option<OrderIntent> = match perp_decision {
        None => None,
        Some(sd) => {
            let size = standardize_base_asset_amount_ceil(sd.0, perp_step);
            Some(
                get_order_params(
                    OrderType::Market,
                    MarketType::Perp,
                    sd.1,
                    size,
                    perp_market_index,
                    false,
                ),
            )
        },
    };

    let spot_decision: Option<(u64, PositionDirection)> = match &account.spot_position {
        None => {
            let dir = match target {
                SpotBalanceType::Borrow => PositionDirection::Short,
                SpotBalanceType::Deposit => PositionDirection::Long,
            };
            Some((target_position_size, dir))
        },
        Some(sp) => {
            let token_amount: i128 = match get_signed_token_amount(sp, spot_market) {
                Ok(v) => v,
                Err(e) => {
                    return Err(e);
                },
            };
            proof {
                if signed_token_amount_ok(*sp, *spot_market) {
                    lemma_round_up_ge(
                        vstd::math::abs(signed_token_amount_of(*sp, *spot_market)) as int,
                        spot_market.order_step_size as int,
                    );
                    lemma_round_up_ge(
                        vstd::math::abs(signed_token_amount_of(*sp, *spot_market))
                            + target_position_size as int,
                        spot_market.order_step_size as int,
                    );
                }
            }
            let magnitude_wide: u128 = if token_amount < 0 {
                (-token_amount) as u128
            } else {
                token_amount as u128
            };
            if should_close {
                let magnitude: u64 = magnitude_wide as u64;
                let dir = if token_amount > 0 {
                    PositionDirection::Short
                } else {
                    PositionDirection::Long
                };
                Some((magnitude, dir))
            } else {
                let mismatched = match (sp.balance_type, target) {
                    (SpotBalanceType::Deposit, SpotBalanceType::Deposit) => false,
                    (SpotBalanceType::Borrow, SpotBalanceType::Borrow) => false,
                    _ => true,
                };
                if sp.scaled_balance != 0 && mismatched {
                    let magnitude: u64 = magnitude_wide as u64;
                    let dir = match target {
                        SpotBalanceType::Borrow => PositionDirection::Short,
                        SpotBalanceType::Deposit => PositionDirection::Long,
                    };
                    Some((magnitude + target_position_size, dir))
                } else {
                    None
                }
            }
        },
    };
    let spot_order: Option<OrderIntent> = match spot_decision {
        None => None,
        Some(sd) => {
            let size = standardize_base_asset_amount_ceil(sd.0, spot_market.order_step_size);
            Some(
                get_order_params(
                    OrderType::Market,
                    MarketType::Spot,
                    sd.1,
                    size,
                    spot_market.market_index,
                    false,
                ),
            )
        },
    };

    Ok(
        RebalancePlan {
            perp_order,
            spot_order,
            enable_margin_trading: !account.margin_trading_enabled,
            should_close,
        },
    )
}

/// Every order an emitted plan carries is quantized: whenever the rounded
/// size fits the 64-bit order field, it is a multiple of its market's step
/// size, covers the unquantized need, and overshoots it by less than one
/// step.
pub proof fn lemma_plan_orders_are_quantized(
    annualized_funding_rate: int,
    favored: PositionDirection,
    borrow_rate: int,
    target_size: int,
    account: AccountState,
    spot_market: SpotMarketState,
    perp_market_index: int,
    perp_step: int,
)
    requires
        spot_market.well_formed(),
        perp_step > 0,
        spot_market.order_step_size > 0,
        target_size >= 0,
    ensures
        ({
            let should_close = annualized_funding_rate <= borrow_rate;
            let target = target_spot_balance_type(favored);
            match spec_plan(
                annualized_funding_rate,
                favored,
                borrow_rate,
                target_size,
                account,
                spot_market,
                perp_market_index,
                perp_step,
            ) {
                Err(_) => true,
                Ok(p) => {
                    &&& match perp_order_plan(
                        account.perp_position,
                        should_close,
                        favored,
                        target_size,
                    ) {
                        None => p.perp_order is None,
                        Some(sd) => p.perp_order matches Some(o) && (round_up_to_step(
                            sd.0,
                            perp_step,
                        ) <= u64::MAX ==> {
                            &&& o.base_asset_amount as int % perp_step == 0
                            &&& sd.0 <= o.base_asset_amount < sd.0 + perp_step
                        }),
                    }
                    &&& match account.spot_position {
                        Some(sp) => signed_token_amount_ok(sp, spot_market),
                        None => true,
                    } ==> match spot_order_plan(
                        account.spot_position,
                        match account.spot_position {
                            None => 0int,
                            Some(sp) => signed_token_amount_of(sp, spot_market),
                        },
                        should_close,
                        target,
                        target_size,
                    ) {
                        None => p.spot_order is None,
                        Some(sd) => p.spot_order matches Some(o) && (round_up_to_step(
                            sd.0,
                            spot_market.order_step_size as int,
                        ) <= u64::MAX ==> {
                            &&& o.base_asset_amount as int % (spot_market.order_step_size as int)
                                == 0
                            &&& sd.0 <= o.base_asset_amount < sd.0 + spot_market.order_step_size
                        }),
                    }
                },
            }
        }),
{
    let should_close = annualized_funding_rate <= borrow_rate;
    let target = target_spot_balance_type(favored);
    match perp_order_plan(account.perp_position, should_close, favored, target_size) {
        None => {},
        Some(sd) => {
            lemma_round_up_quantizes(sd.0, perp_step);
        },
    }
    let token_amount = match account.spot_position {
        None => 0int,
        Some(sp) => signed_token_amount_of(sp, spot_market),
    };
    match spot_order_plan(account.spot_position, token_amount, should_close, target, target_size) {
        None => {},
        Some(sd) => {
            if sd.0 >= 0 {
                lemma_round_up_quantizes(sd.0, spot_market.order_step_size as int);
            }
        },
    }
}

/// Whether two directions are the same side.
fn matches_direction(a: PositionDirection, b: PositionDirection) -> (r: bool)
    ensures
        r <==> a == b,
{
    match (a, b) {
        (PositionDirection::Long, PositionDirection::Long) => true,
        (PositionDirection::Short, PositionDirection::Short) => true,
        _ => false,
    }
}

} // verus!
