use funding_arb::config::EngineConfig;
use funding_arb::error::EngineError;
use funding_arb::funding::calculate_funding_rate_long_short;
use funding_arb::funding::compute_funding_rate;
use funding_arb::market::AmmState;
use funding_arb::market::PerpMarketState;
use funding_arb::market::PositionDirection;
use funding_arb::oracle::OraclePriceData;

fn perp(mark_twap: i64, reserve: u64) -> PerpMarketState {
    PerpMarketState {
        market_index: 0,
        amm: AmmState {
            oracle_price_twap: 1_000_000,
            mark_price_twap: mark_twap,
            long_spread: 0,
            short_spread: 0,
            funding_period: 3_600,
            order_step_size: 1,
            last_update_timestamp: 0,
        },
        reserve_price: reserve,
        sanitize_clamp_denominator: 5,
        base_asset_amount_long: 0,
        base_asset_amount_short: 0,
    }
}

fn oracle(price: i64) -> OraclePriceData {
    OraclePriceData {
        price,
        confidence: 0,
        delay: 0,
        has_sufficient_number_of_data_points: true,
    }
}

#[test]
fn funding_rate_from_a_one_percent_premium() {
    let cfg = EngineConfig::standard();
    // Steady markets: both averages reproduce themselves after a full
    // period, the premium is 10000 (one percent), the per-period rate is
    // 10000 * 1000 / 24 = 416666, and annualized against the oracle
    // average of exactly one: 416666 * 876000.
    let mut m = perp(1_010_000, 1_010_000);
    let d = compute_funding_rate(&cfg, &mut m, &oracle(1_000_000), 3_600).unwrap();
    assert_eq!(d.annualized_funding_rate, 364_999_416_000);
    assert_eq!(d.favored_direction, PositionDirection::Short);
    assert_eq!(m.amm.oracle_price_twap, 1_000_000);
    assert_eq!(m.amm.mark_price_twap, 1_010_000);
    assert_eq!(m.amm.last_update_timestamp, 3_600);
}

#[test]
fn funding_premium_is_clamped_to_a_thirty_third() {
    let cfg = EngineConfig::standard();
    // A huge premium is capped at 1000000/33 = 30303, so the rate is
    // 30303 * 1000 / 24 = 1262625, annualized 1262625 * 876000.
    let mut m = perp(2_000_000, 2_000_000);
    let d = compute_funding_rate(&cfg, &mut m, &oracle(1_000_000), 3_600).unwrap();
    assert_eq!(d.annualized_funding_rate, 1_106_059_500_000);
    assert_eq!(d.favored_direction, PositionDirection::Short);
}

#[test]
fn funding_favors_longs_when_the_mark_sits_below_the_oracle() {
    let cfg = EngineConfig::standard();
    let mut m = perp(990_000, 990_000);
    let d = compute_funding_rate(&cfg, &mut m, &oracle(1_000_000), 3_600).unwrap();
    assert_eq!(d.favored_direction, PositionDirection::Long);
    // Premium -10000, rate -416667 (truncation toward zero divides the
    // magnitude), annualized 416666 * 876000... the magnitude divides
    // exactly: |-416666| after truncating -10000000/24 = -416666.
    assert_eq!(d.annualized_funding_rate, 364_999_416_000);
}

#[test]
fn funding_rejects_a_period_above_one_day() {
    let cfg = EngineConfig::standard();
    let mut m = perp(1_010_000, 1_010_000);
    m.amm.funding_period = 90_000;
    let before = m;
    let r = compute_funding_rate(&cfg, &mut m, &oracle(1_000_000), 3_600);
    assert_eq!(r, Err(EngineError::RateComputation));
    assert_eq!(m, before);
}

#[test]
fn funding_rejects_a_zero_oracle_average() {
    let cfg = EngineConfig::standard();
    let mut m = perp(1_010_000, 1_010_000);
    m.amm.oracle_price_twap = 0;
    let r = compute_funding_rate(&cfg, &mut m, &oracle(0), 3_600);
    assert_eq!(r, Err(EngineError::RateComputation));
}

#[test]
fn funding_split_dampens_the_crowded_receiving_side() {
    // Longs pay 900; shorts hold three times the long interest, so the
    // short side receives 900 * 100 / 300 = 300.
    assert_eq!(calculate_funding_rate_long_short(900, 100, 300), (900, 300));
    // Balanced interest passes the rate through.
    assert_eq!(calculate_funding_rate_long_short(900, 300, 300), (900, 900));
    // Negative rates mirror on the long side.
    assert_eq!(calculate_funding_rate_long_short(-900, 300, 100), (-300, -900));
    assert_eq!(calculate_funding_rate_long_short(-900, 100, 300), (-900, -900));
}

#[test]
fn funding_uses_the_dominant_spread_side_for_the_mark_sample() {
    let cfg = EngineConfig::standard();
    // The long spread dominates: the sample is the ask,
    // 1000000 + 1000000*20000/1000000 = 1020000. After a full period the
    // mark average lands on the sample; the oracle average stays at
    // 1000000, so the premium is 20000 and the rate 20000*1000/24.
    let mut m = perp(1_020_000, 1_000_000);
    m.amm.long_spread = 20_000;
    m.amm.short_spread = 10_000;
    let d = compute_funding_rate(&cfg, &mut m, &oracle(1_000_000), 3_600).unwrap();
    assert_eq!(m.amm.mark_price_twap, 1_020_000);
    // 20000 * 1000 / 24 = 833333; 833333 * 876000 = 729999708000.
    assert_eq!(d.annualized_funding_rate, 729_999_708_000);
}
