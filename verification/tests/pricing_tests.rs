use hype_bond::constants::{
    MAX_SLIPPAGE, MEDIUM_TRADE_THRESHOLD, SMALL_TRADE_THRESHOLD, VOLUME_THRESHOLD,
};
use hype_bond::curve::{BondingCurve, CurveState};
use hype_bond::errors::HypeBondError;

fn market(base_slippage: u64, volume_multiplier: u64, last_hour_volume: u64) -> BondingCurve {
    BondingCurve {
        virtual_token_reserves: 1_000_000,
        virtual_sol_reserves: 30_000_000_000,
        real_token_reserves: 4_000_000,
        real_sol_reserves: 500_000_000,
        token_total_supply: 5_000_000,
        curve_state: CurveState::BondingCurve,
        base_slippage,
        volume_multiplier,
        last_hour_volume,
        ..BondingCurve::default()
    }
}

fn auction(base_slippage: u64) -> BondingCurve {
    let mut curve = BondingCurve::default();
    curve.initialize_discovery(0, 1000, 1000, 100, 1 << 60).unwrap();
    curve.base_slippage = base_slippage;
    curve
}

#[test]
fn thresholds_are_ordered() {
    assert!(SMALL_TRADE_THRESHOLD < MEDIUM_TRADE_THRESHOLD);
    assert!(VOLUME_THRESHOLD > 0);
}

#[test]
fn buy_protections_by_size_tier() {
    let curve = market(10_000, 50, 2 * VOLUME_THRESHOLD + VOLUME_THRESHOLD / 2);
    assert_eq!(
        curve.apply_protections(1_000_000, SMALL_TRADE_THRESHOLD - 1),
        Ok(1_020_100)
    );
    assert_eq!(
        curve.apply_protections(1_000_000, SMALL_TRADE_THRESHOLD),
        Ok(1_040_300)
    );
    assert_eq!(
        curve.apply_protections(1_000_000, MEDIUM_TRADE_THRESHOLD - 1),
        Ok(1_040_300)
    );
    assert_eq!(
        curve.apply_protections(1_000_000, MEDIUM_TRADE_THRESHOLD),
        Ok(1_060_500)
    );
    assert_eq!(curve.apply_protections(1_000_000, u64::MAX), Ok(1_060_500));
}

#[test]
fn trade_protections_of_a_buy_equal_the_buy_protections() {
    let curve = market(10_000, 50, 2 * VOLUME_THRESHOLD);
    assert_eq!(
        curve.apply_trade_protections(1_000_000, 5, true),
        curve.apply_protections(1_000_000, 5)
    );
    assert_eq!(
        curve.apply_trade_protections(1_000_000, MEDIUM_TRADE_THRESHOLD, true),
        Ok(1_060_500)
    );
}

#[test]
fn sell_protections_by_size_tier() {
    let curve = market(10_000, 50, 2 * VOLUME_THRESHOLD);
    assert_eq!(
        curve.apply_trade_protections(1_000_000, SMALL_TRADE_THRESHOLD - 1, false),
        Ok(999_900)
    );
    assert_eq!(
        curve.apply_trade_protections(1_000_000, SMALL_TRADE_THRESHOLD, false),
        Ok(979_700)
    );
    assert_eq!(
        curve.apply_trade_protections(1_000_000, MEDIUM_TRADE_THRESHOLD - 1, false),
        Ok(979_700)
    );
    assert_eq!(
        curve.apply_trade_protections(1_000_000, MEDIUM_TRADE_THRESHOLD, false),
        Ok(959_500)
    );
}

#[test]
fn volume_below_the_threshold_adds_nothing() {
    let curve = market(10_000, 50, VOLUME_THRESHOLD - 1);
    assert_eq!(curve.apply_protections(1_000_000, 1), Ok(1_010_000));
    let curve = market(10_000, 50, VOLUME_THRESHOLD);
    assert_eq!(curve.apply_protections(1_000_000, 1), Ok(1_015_050));
}

#[test]
fn dynamic_multiplier_falls_back_to_the_ceiling() {
    let curve = market(u64::MAX, 1, VOLUME_THRESHOLD);
    assert_eq!(MAX_SLIPPAGE, 1_000);
    assert_eq!(curve.apply_protections(1_000_000, 1), Ok(101_000));
    let curve = market(0, u64::MAX, 2 * VOLUME_THRESHOLD);
    assert_eq!(curve.apply_protections(1_000_000, 1), Ok(101_000));
    let curve = market(u64::MAX, 1, VOLUME_THRESHOLD - 1);
    assert_eq!(
        curve.apply_protections(1_000_000, 1),
        Err(HypeBondError::MathOverflow)
    );
}

#[test]
fn protections_round_down_after_each_division() {
    let curve = market(100, 0, 0);
    assert_eq!(curve.apply_protections(50, 1), Ok(0));
    let curve = market(12_223, 0, 0);
    assert_eq!(curve.apply_protections(1, 1), Ok(1));
    let curve = market(9_901, 0, 0);
    assert_eq!(curve.apply_protections(1, 1), Ok(1));
    let curve = market(9_900, 0, 0);
    assert_eq!(curve.apply_protections(1, 1), Ok(0));
}

#[test]
fn overflowing_protections_fail_in_the_constant_product_phase() {
    let curve = market(10_000, 0, 0);
    assert_eq!(
        curve.apply_protections(u64::MAX / 10_100 + 1, 1),
        Err(HypeBondError::MathOverflow)
    );
    assert_eq!(
        curve.apply_protections(u64::MAX / 10_100, 1),
        Err(HypeBondError::MathOverflow)
    );
    assert_eq!(
        curve.apply_trade_protections(u64::MAX / 9_500, MEDIUM_TRADE_THRESHOLD, false),
        Err(HypeBondError::MathOverflow)
    );
    let largest = u64::MAX / 10_100 / 10_000;
    assert_eq!(
        curve.apply_protections(largest, 1),
        Ok(largest * 10_100 / 10_000)
    );
    assert_eq!(
        curve.apply_protections(largest + 1, 1),
        Err(HypeBondError::MathOverflow)
    );
}

#[test]
fn zero_products_fail_in_the_constant_product_phase() {
    let curve = market(10_000, 0, 0);
    assert_eq!(
        curve.apply_protections(0, 1),
        Err(HypeBondError::MathOverflow)
    );
    let curve = market(0, 0, 0);
    assert_eq!(
        curve.apply_protections(1_000, 1),
        Err(HypeBondError::MathOverflow)
    );
    let curve = market(0, 7, VOLUME_THRESHOLD - 1);
    assert_eq!(
        curve.apply_trade_protections(1_000, 1, false),
        Err(HypeBondError::MathOverflow)
    );
}

#[test]
fn failed_protections_leave_the_base_amount_during_discovery() {
    let curve = auction(10_000);
    assert_eq!(
        curve.apply_protections(u64::MAX / 10_100 + 1, 1),
        Ok(u64::MAX / 10_100 + 1)
    );
    assert_eq!(
        curve.apply_protections(u64::MAX / 10_100, 1),
        Ok(u64::MAX / 10_100)
    );
    assert_eq!(curve.apply_protections(0, 1), Ok(0));
    let curve = auction(0);
    assert_eq!(curve.apply_protections(1_000, 1), Ok(1_000));
    let curve = auction(10_000);
    assert_eq!(curve.apply_protections(1_000_000, 1), Ok(1_010_000));
}

#[test]
fn buy_quote_in_the_constant_product_phase() {
    let curve = market(10_000, 0, 0);
    assert_eq!(curve.get_base_price(10_000, true), Ok(297_029_703));
    assert_eq!(curve.calculate_buy_price(10_000, 0), Ok(300_000_000));
    assert_eq!(curve.calculate_buy_price(10_000, i64::MAX), Ok(300_000_000));
}

#[test]
fn sell_quote_in_the_constant_product_phase() {
    let curve = market(10_000, 0, 0);
    assert_eq!(curve.get_base_price(10_000, false), Ok(303_030_303));
    assert_eq!(curve.calculate_sell_price(10_000, 0), Ok(299_999_999));
}

#[test]
fn quotes_fail_where_the_base_price_fails() {
    let curve = market(10_000, 0, 0);
    assert_eq!(
        curve.calculate_sell_price(1_000_001, 0),
        Err(HypeBondError::MathOverflow)
    );
    assert_eq!(
        curve.calculate_sell_price(1_000_000, 0),
        Err(HypeBondError::MathOverflow)
    );
    assert_eq!(
        curve.calculate_buy_price(u64::MAX, 0),
        Err(HypeBondError::MathOverflow)
    );
    assert_eq!(
        curve.calculate_buy_price(0, 0),
        Err(HypeBondError::MathOverflow)
    );
}

#[test]
fn quotes_do_not_change_the_curve() {
    let curve = market(10_000, 3, 5 * VOLUME_THRESHOLD);
    let before = curve;
    let _ = curve.calculate_buy_price(10_000, 5);
    let _ = curve.calculate_sell_price(10_000, 5);
    let _ = curve.get_base_price(10_000, true);
    let _ = curve.get_discovery_price(5);
    let _ = curve.apply_protections(10_000, 5);
    assert_eq!(curve, before);
}

#[test]
fn buy_quote_during_discovery() {
    let curve = auction(10_000);
    assert_eq!(curve.get_discovery_price(500), Ok(550));
    assert_eq!(curve.calculate_buy_price(3_000_000_000_000, 500), Ok(1_732_500));
    assert_eq!(curve.calculate_buy_price(2_000_000, 500), Ok(1));
    assert_eq!(curve.calculate_buy_price(1_000_000, 500), Ok(0));
    assert_eq!(
        curve.calculate_buy_price(3_000_000_000_000, 1_000),
        Ok(315_000)
    );
}

#[test]
fn sell_quote_during_discovery_takes_a_flat_discount() {
    let curve = auction(10_000);
    assert_eq!(
        curve.calculate_sell_price(3_000_000_000_000, 500),
        Ok(1_567_500)
    );
    let busy = BondingCurve {
        last_hour_volume: 50 * VOLUME_THRESHOLD,
        volume_multiplier: 500,
        base_slippage: 0,
        ..curve
    };
    assert_eq!(
        busy.calculate_sell_price(3_000_000_000_000, 500),
        Ok(1_567_500)
    );
    assert_eq!(curve.calculate_sell_price(0, 500), Ok(0));
    assert_eq!(curve.calculate_sell_price(1_913_875, 500), Ok(0));
    assert_eq!(curve.calculate_sell_price(1_913_876, 500), Ok(1));
}

#[test]
fn discovery_quotes_with_large_products_do_not_wrap() {
    let mut curve = auction(10_000);
    curve.discovery_start_price = 1 << 30;
    curve.discovery_end_price = 1 << 30;
    assert_eq!(
        curve.calculate_buy_price(1 << 40, 0),
        Ok(1_180_591_620_717)
    );
    assert_eq!(
        curve.calculate_sell_price(1 << 40, 0),
        Ok(1_121_562_039_681)
    );
}

#[test]
fn discovery_quotes_beyond_the_range_fail() {
    let mut curve = auction(10_000);
    curve.discovery_start_price = u64::MAX;
    curve.discovery_end_price = u64::MAX;
    assert_eq!(
        curve.calculate_buy_price(u64::MAX, 0),
        Err(HypeBondError::MathOverflow)
    );
    assert_eq!(
        curve.calculate_sell_price(u64::MAX, 0),
        Err(HypeBondError::MathOverflow)
    );
    assert_eq!(
        curve.calculate_buy_price(1_000_000_000, 0),
        Ok(u64::MAX)
    );
    assert_eq!(
        curve.calculate_sell_price(1_000_000_000, 0),
        Ok(17_524_406_870_024_074_034)
    );
}
