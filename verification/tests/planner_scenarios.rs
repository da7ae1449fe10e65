use funding_arb::config::EngineConfig;
use funding_arb::engine::evaluate_cycle;
use funding_arb::error::EngineError;
use funding_arb::funding::FundingDecision;
use funding_arb::market::AmmState;
use funding_arb::market::Market;
use funding_arb::market::PerpMarketState;
use funding_arb::market::PositionDirection;
use funding_arb::market::SpotBalanceType;
use funding_arb::market::SpotMarketState;
use funding_arb::oracle::OracleReading;
use funding_arb::planner::get_order_params;
use funding_arb::planner::plan_rebalance;
use funding_arb::planner::profitability_gate;
use funding_arb::planner::standardize_base_asset_amount_ceil;
use funding_arb::planner::AccountState;
use funding_arb::planner::MarketType;
use funding_arb::planner::OrderType;
use funding_arb::planner::PerpPosition;
use funding_arb::planner::SpotPosition;

fn spot_market() -> SpotMarketState {
    SpotMarketState {
        market_index: 1,
        deposit_balance: 0,
        borrow_balance: 0,
        cumulative_deposit_interest: 10_000_000_000,
        cumulative_borrow_interest: 10_000_000_000,
        decimals: 6,
        optimal_utilization: 800_000,
        optimal_borrow_rate: 60_000,
        max_borrow_rate: 300_000,
        order_step_size: 10,
    }
}

fn flat_account() -> AccountState {
    AccountState { perp_position: None, spot_position: None, margin_trading_enabled: true }
}

fn decision(rate: u128, favored: PositionDirection) -> FundingDecision {
    FundingDecision { annualized_funding_rate: rate, favored_direction: favored }
}

#[test]
fn quantization_rounds_up_to_the_step() {
    assert_eq!(standardize_base_asset_amount_ceil(7, 5), 10);
    assert_eq!(standardize_base_asset_amount_ceil(10, 5), 10);
    assert_eq!(standardize_base_asset_amount_ceil(11, 5), 15);
    assert_eq!(standardize_base_asset_amount_ceil(0, 5), 0);
    assert_eq!(standardize_base_asset_amount_ceil(1, 1), 1);
}

#[test]
fn gate_closes_exactly_when_funding_does_not_beat_borrow() {
    assert_eq!(profitability_gate(20, 5), (15, false));
    assert_eq!(profitability_gate(5, 5), (0, true));
    assert_eq!(profitability_gate(3, 5), (0, true));
    assert_eq!(profitability_gate(0, 0), (0, true));
}

#[test]
fn flat_account_opens_both_legs_toward_the_favored_long() {
    let plan = plan_rebalance(
        &decision(20, PositionDirection::Long),
        5,
        100,
        &flat_account(),
        &spot_market(),
        0,
        10,
    )
    .unwrap();
    assert!(!plan.should_close);
    assert!(!plan.enable_margin_trading);
    let perp = plan.perp_order.unwrap();
    assert_eq!(perp.direction, PositionDirection::Long);
    assert_eq!(perp.base_asset_amount, 100);
    assert_eq!(perp.market_type, MarketType::Perp);
    assert_eq!(perp.market_index, 0);
    let spot = plan.spot_order.unwrap();
    assert_eq!(spot.direction, PositionDirection::Short);
    assert_eq!(spot.base_asset_amount, 100);
    assert_eq!(spot.market_type, MarketType::Spot);
    assert_eq!(spot.market_index, 1);
}

#[test]
fn favored_flip_closes_and_reopens_in_one_order() {
    let account = AccountState {
        perp_position: Some(PerpPosition { base_asset_amount: 50 }),
        spot_position: None,
        margin_trading_enabled: true,
    };
    let plan = plan_rebalance(
        &decision(20, PositionDirection::Short),
        5,
        100,
        &account,
        &spot_market(),
        0,
        10,
    )
    .unwrap();
    let perp = plan.perp_order.unwrap();
    assert_eq!(perp.direction, PositionDirection::Short);
    assert_eq!(perp.base_asset_amount, 150);
}

#[test]
fn zero_delta_fully_closes_an_existing_long() {
    let account = AccountState {
        perp_position: Some(PerpPosition { base_asset_amount: 50 }),
        spot_position: None,
        margin_trading_enabled: true,
    };
    let plan = plan_rebalance(
        &decision(5, PositionDirection::Long),
        5,
        100,
        &account,
        &spot_market(),
        0,
        10,
    )
    .unwrap();
    assert!(plan.should_close);
    let perp = plan.perp_order.unwrap();
    assert_eq!(perp.direction, PositionDirection::Short);
    assert_eq!(perp.base_asset_amount, 50);
}

#[test]
fn matching_position_emits_no_perp_intent() {
    let account = AccountState {
        perp_position: Some(PerpPosition { base_asset_amount: 50 }),
        spot_position: None,
        margin_trading_enabled: true,
    };
    let plan = plan_rebalance(
        &decision(20, PositionDirection::Long),
        5,
        100,
        &account,
        &spot_market(),
        0,
        10,
    )
    .unwrap();
    assert_eq!(plan.perp_order, None);
}

#[test]
fn mismatched_spot_leg_is_flipped_with_the_derived_token_amount() {
    // A deposit of 50 tokens while a long-favored hedge wants a borrow:
    // flip with 50 + 100 = 150, quantized to the spot step of 10.
    let account = AccountState {
        perp_position: None,
        spot_position: Some(
            SpotPosition { scaled_balance: 50_000, balance_type: SpotBalanceType::Deposit },
        ),
        margin_trading_enabled: true,
    };
    let plan = plan_rebalance(
        &decision(20, PositionDirection::Long),
        5,
        100,
        &account,
        &spot_market(),
        0,
        10,
    )
    .unwrap();
    let spot = plan.spot_order.unwrap();
    assert_eq!(spot.direction, PositionDirection::Short);
    assert_eq!(spot.base_asset_amount, 150);
}

#[test]
fn closing_unwinds_the_spot_leg_toward_the_opposite_side() {
    let account = AccountState {
        perp_position: None,
        spot_position: Some(
            SpotPosition { scaled_balance: 50_000, balance_type: SpotBalanceType::Deposit },
        ),
        margin_trading_enabled: true,
    };
    let plan = plan_rebalance(
        &decision(5, PositionDirection::Short),
        5,
        100,
        &account,
        &spot_market(),
        0,
        10,
    )
    .unwrap();
    // Closing unwinds the held deposit: it sells.
    let spot = plan.spot_order.unwrap();
    assert_eq!(spot.direction, PositionDirection::Short);
    assert_eq!(spot.base_asset_amount, 50);
}

#[test]
fn closing_unwinds_a_deposit_even_when_the_target_is_a_borrow() {
    // A deposit of 50 tokens is held while the favored direction is Long,
    // whose hedge would want a borrow. The close order still unwinds the
    // position actually held: it sells the deposit rather than growing it.
    let account = AccountState {
        perp_position: None,
        spot_position: Some(
            SpotPosition { scaled_balance: 50_000, balance_type: SpotBalanceType::Deposit },
        ),
        margin_trading_enabled: true,
    };
    let plan = plan_rebalance(
        &decision(5, PositionDirection::Long),
        5,
        100,
        &account,
        &spot_market(),
        0,
        10,
    )
    .unwrap();
    assert!(plan.should_close);
    let spot = plan.spot_order.unwrap();
    assert_eq!(spot.direction, PositionDirection::Short);
    assert_eq!(spot.base_asset_amount, 50);
}

#[test]
fn closing_buys_back_a_held_borrow() {
    let account = AccountState {
        perp_position: None,
        spot_position: Some(
            SpotPosition { scaled_balance: 50_000, balance_type: SpotBalanceType::Borrow },
        ),
        margin_trading_enabled: true,
    };
    let plan = plan_rebalance(
        &decision(5, PositionDirection::Short),
        5,
        100,
        &account,
        &spot_market(),
        0,
        10,
    )
    .unwrap();
    assert!(plan.should_close);
    let spot = plan.spot_order.unwrap();
    assert_eq!(spot.direction, PositionDirection::Long);
    assert_eq!(spot.base_asset_amount, 50);
}

#[test]
fn matching_spot_leg_emits_no_spot_intent() {
    // Favored long wants a borrow-side spot leg, and the account already
    // holds one.
    let account = AccountState {
        perp_position: None,
        spot_position: Some(
            SpotPosition { scaled_balance: 50_000, balance_type: SpotBalanceType::Borrow },
        ),
        margin_trading_enabled: true,
    };
    let plan = plan_rebalance(
        &decision(20, PositionDirection::Long),
        5,
        100,
        &account,
        &spot_market(),
        0,
        10,
    )
    .unwrap();
    assert_eq!(plan.spot_order, None);
}

#[test]
fn a_flat_account_still_opens_the_target_when_closing() {
    // With no position on either leg the planner emits the target sizing
    // even while the carry says close: absence of a position takes the
    // flat branch, not the closing one.
    let plan = plan_rebalance(
        &decision(5, PositionDirection::Long),
        5,
        100,
        &flat_account(),
        &spot_market(),
        0,
        10,
    )
    .unwrap();
    assert!(plan.should_close);
    assert_eq!(plan.perp_order.unwrap().base_asset_amount, 100);
    assert_eq!(plan.spot_order.unwrap().base_asset_amount, 100);
}

#[test]
fn disabled_margin_trading_requests_the_enable_intent() {
    let account = AccountState { margin_trading_enabled: false, ..flat_account() };
    let plan = plan_rebalance(
        &decision(20, PositionDirection::Long),
        5,
        100,
        &account,
        &spot_market(),
        0,
        10,
    )
    .unwrap();
    assert!(plan.enable_margin_trading);
}

#[test]
fn order_params_carry_their_six_fields() {
    let p = get_order_params(OrderType::Market, MarketType::Perp, PositionDirection::Long, 7, 3, false);
    assert_eq!(p.order_type, OrderType::Market);
    assert_eq!(p.market_type, MarketType::Perp);
    assert_eq!(p.direction, PositionDirection::Long);
    assert_eq!(p.base_asset_amount, 7);
    assert_eq!(p.market_index, 3);
    assert!(!p.reduce_only);
}

fn perp_market() -> PerpMarketState {
    PerpMarketState {
        market_index: 0,
        amm: AmmState {
            oracle_price_twap: 1_000_000,
            mark_price_twap: 1_010_000,
            long_spread: 0,
            short_spread: 0,
            funding_period: 3_600,
            order_step_size: 1,
            last_update_timestamp: 0,
        },
        reserve_price: 1_010_000,
        sanitize_clamp_denominator: 5,
        base_asset_amount_long: 0,
        base_asset_amount_short: 0,
    }
}

fn reading() -> OracleReading {
    OracleReading { price: 1_000_000, confidence: 10, exponent: -6, has_sufficient_data: true }
}

#[test]
fn a_full_cycle_plans_the_short_funding_hedge() {
    let cfg = EngineConfig::standard();
    // The one-percent premium annualizes to 364999416000 against a borrow
    // cost of zero (idle pool), so the hedge opens toward the short side.
    let plan = evaluate_cycle(
        &cfg,
        &Market::Perp(perp_market()),
        &Market::Spot(spot_market()),
        &flat_account(),
        &reading(),
        3_600,
        100,
    )
    .unwrap();
    assert!(!plan.should_close);
    let perp = plan.perp_order.unwrap();
    assert_eq!(perp.direction, PositionDirection::Short);
    assert_eq!(perp.base_asset_amount, 100);
    let spot = plan.spot_order.unwrap();
    assert_eq!(spot.direction, PositionDirection::Long);
    assert_eq!(spot.base_asset_amount, 100);
}

#[test]
fn a_cycle_is_idempotent_over_identical_snapshots() {
    let cfg = EngineConfig::standard();
    let first = evaluate_cycle(
        &cfg,
        &Market::Perp(perp_market()),
        &Market::Spot(spot_market()),
        &flat_account(),
        &reading(),
        3_600,
        100,
    );
    let second = evaluate_cycle(
        &cfg,
        &Market::Perp(perp_market()),
        &Market::Spot(spot_market()),
        &flat_account(),
        &reading(),
        3_600,
        100,
    );
    assert_eq!(first, second);
}

#[test]
fn a_cycle_rejects_swapped_market_kinds() {
    let cfg = EngineConfig::standard();
    let r = evaluate_cycle(
        &cfg,
        &Market::Spot(spot_market()),
        &Market::Spot(spot_market()),
        &flat_account(),
        &reading(),
        3_600,
        100,
    );
    assert_eq!(r, Err(EngineError::WrongMarketKind));
    let r = evaluate_cycle(
        &cfg,
        &Market::Perp(perp_market()),
        &Market::Perp(perp_market()),
        &flat_account(),
        &reading(),
        3_600,
        100,
    );
    assert_eq!(r, Err(EngineError::WrongMarketKind));
}

#[test]
fn a_cycle_rejects_an_insufficient_oracle_reading() {
    let cfg = EngineConfig::standard();
    let r = evaluate_cycle(
        &cfg,
        &Market::Perp(perp_market()),
        &Market::Spot(spot_market()),
        &flat_account(),
        &OracleReading { has_sufficient_data: false, ..reading() },
        3_600,
        100,
    );
    assert_eq!(r, Err(EngineError::InsufficientData));
}

#[test]
fn a_cycle_surfaces_a_price_conversion_failure() {
    let cfg = EngineConfig::standard();
    let r = evaluate_cycle(
        &cfg,
        &Market::Perp(perp_market()),
        &Market::Spot(spot_market()),
        &flat_account(),
        &OracleReading { exponent: -50, ..reading() },
        3_600,
        100,
    );
    assert_eq!(r, Err(EngineError::PriceConversion));
}
