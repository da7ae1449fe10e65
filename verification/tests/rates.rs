use funding_arb::borrow::compute_borrow_rate;
use funding_arb::borrow::get_token_amount;
use funding_arb::config::EngineConfig;
use funding_arb::error::EngineError;
use funding_arb::market::SpotBalanceType;
use funding_arb::market::SpotMarketState;
use funding_arb::oracle::normalize_oracle_price;
use funding_arb::twap::update_price_twap;

fn pool(deposit_balance: u128, borrow_balance: u128) -> SpotMarketState {
    SpotMarketState {
        market_index: 1,
        deposit_balance,
        borrow_balance,
        cumulative_deposit_interest: 10_000_000_000,
        cumulative_borrow_interest: 10_000_000_000,
        decimals: 6,
        optimal_utilization: 800_000,
        optimal_borrow_rate: 60_000,
        max_borrow_rate: 300_000,
        order_step_size: 1,
    }
}

#[test]
fn normalize_divides_when_feed_scale_exceeds_price_precision() {
    let cfg = EngineConfig::standard();
    let o = normalize_oracle_price(&cfg, 123_456_789, 1_000, -8).unwrap();
    assert_eq!(o.price, 1_234_567);
    assert_eq!(o.confidence, 10);
    assert_eq!(o.delay, 0);
    assert!(o.has_sufficient_number_of_data_points);
}

#[test]
fn normalize_multiplies_when_feed_scale_is_below_price_precision() {
    let cfg = EngineConfig::standard();
    let o = normalize_oracle_price(&cfg, -1_234, 5, -3).unwrap();
    assert_eq!(o.price, -1_234_000);
    assert_eq!(o.confidence, 5_000);
}

#[test]
fn normalize_is_identity_at_matching_scale() {
    let cfg = EngineConfig::standard();
    let o = normalize_oracle_price(&cfg, 1_000_000, 250, -6).unwrap();
    assert_eq!(o.price, 1_000_000);
    assert_eq!(o.confidence, 250);
}

#[test]
fn normalize_treats_a_positive_exponent_by_its_magnitude() {
    let cfg = EngineConfig::standard();
    let o = normalize_oracle_price(&cfg, 42, 7, 8).unwrap();
    assert_eq!(o.price, 0);
    assert_eq!(o.confidence, 0);
}

#[test]
fn normalize_rejects_a_feed_scale_that_overflows() {
    let cfg = EngineConfig::standard();
    let r = normalize_oracle_price(&cfg, 1, 1, -50);
    assert_eq!(r, Err(EngineError::PriceConversion));
}

#[test]
fn normalize_rejects_a_scaled_price_that_overflows() {
    let cfg = EngineConfig::standard();
    let r = normalize_oracle_price(&cfg, i64::MAX, 0, 0);
    assert_eq!(r, Err(EngineError::PriceConversion));
}

#[test]
fn twap_blends_a_clamped_sample_by_elapsed_time() {
    // bound = 1000/3 = 333, sample clamped to 1333; halfway through the
    // period the blend is (1333*1800 + 1000*1800) / 3600 = 1166.
    let t = update_price_twap(1_000, 0, 2_000, 1_800, 3_600, 3).unwrap();
    assert_eq!(t, 1_166);
}

#[test]
fn twap_clamps_a_downward_spike_symmetrically() {
    let t = update_price_twap(1_000, 0, 0, 1_800, 3_600, 3).unwrap();
    assert_eq!(t, 833);
}

#[test]
fn twap_with_period_elapsed_takes_the_sanitized_sample() {
    let t = update_price_twap(1_000, 0, 1_100, 7_200, 3_600, 2).unwrap();
    assert_eq!(t, 1_100);
}

#[test]
fn token_amount_rounds_deposits_down_and_borrows_up() {
    let m = SpotMarketState { cumulative_borrow_interest: 10_000_000_001, ..pool(0, 0) };
    let dep = get_token_amount(1, &m, SpotBalanceType::Deposit).unwrap();
    assert_eq!(dep, 0);
    let bor = get_token_amount(1, &m, SpotBalanceType::Borrow).unwrap();
    assert_eq!(bor, 1);
}

#[test]
fn borrow_rate_below_optimal_utilization() {
    let cfg = EngineConfig::standard();
    // deposit 1_000_000 tokens, borrow 500_000 tokens: utilization 333333;
    // rate = 333333 * 60000 / 800000 = 24999.
    let m = pool(1_000_000_000, 500_000_000);
    assert_eq!(compute_borrow_rate(&cfg, &m).unwrap(), 24_999);
}

#[test]
fn borrow_rate_is_exact_at_the_optimal_utilization() {
    let cfg = EngineConfig::standard();
    // deposit 200_000 tokens, borrow 800_000 tokens: utilization 800000.
    let m = pool(200_000_000, 800_000_000);
    assert_eq!(compute_borrow_rate(&cfg, &m).unwrap(), 60_000);
}

#[test]
fn borrow_rate_is_exact_at_full_utilization() {
    let cfg = EngineConfig::standard();
    let m = pool(0, 1_000_000_000);
    assert_eq!(compute_borrow_rate(&cfg, &m).unwrap(), 300_000);
}

#[test]
fn borrow_rate_above_optimal_utilization() {
    let cfg = EngineConfig::standard();
    // deposit 100_000 tokens, borrow 900_000 tokens: utilization 900000;
    // rate = 60000 + 100000 * 240000 / 200000 = 180000.
    let m = pool(100_000_000, 900_000_000);
    assert_eq!(compute_borrow_rate(&cfg, &m).unwrap(), 180_000);
}

#[test]
fn borrow_rate_of_an_idle_pool_is_zero() {
    let cfg = EngineConfig::standard();
    assert_eq!(compute_borrow_rate(&cfg, &pool(1_000_000_000, 0)).unwrap(), 0);
    assert_eq!(compute_borrow_rate(&cfg, &pool(0, 0)).unwrap(), 0);
}

#[test]
fn borrow_rate_rejects_a_boundary_optimal_utilization() {
    let cfg = EngineConfig::standard();
    let m = SpotMarketState { optimal_utilization: 0, ..pool(1_000_000_000, 500_000_000) };
    assert_eq!(compute_borrow_rate(&cfg, &m), Err(EngineError::RateComputation));
    let m = SpotMarketState { optimal_utilization: 1_000_000, ..pool(1_000_000_000, 500_000_000) };
    assert_eq!(compute_borrow_rate(&cfg, &m), Err(EngineError::RateComputation));
}

#[test]
fn borrow_rate_rejects_an_inverted_rate_configuration() {
    let cfg = EngineConfig::standard();
    let m = SpotMarketState { max_borrow_rate: 10_000, ..pool(1_000_000_000, 500_000_000) };
    assert_eq!(compute_borrow_rate(&cfg, &m), Err(EngineError::RateComputation));
}
