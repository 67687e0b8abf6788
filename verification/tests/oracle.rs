use orai_tier::band::{OraiPriceOracle, ONE_USD, PROBE_AMOUNT};
use orai_tier::error::ContractError;

#[test]
fn rate_below_probe_scale_stores_reciprocal() {
    // quote below the probe scale: flag set, reciprocal ratio stored
    let o = OraiPriceOracle::from_rate(500_000).unwrap();
    assert!(o.flag);
    assert_eq!(o.value, 2);
    // usd = orai * value / ONE_USD
    assert_eq!(o.usd_amount(ONE_USD), 2);
    // base = usd * ONE_USD / value
    assert_eq!(o.orai_amount(2), ONE_USD);
}

#[test]
fn rate_above_probe_scale_stores_direct_ratio() {
    let o = OraiPriceOracle::from_rate(5_000_000).unwrap();
    assert!(!o.flag);
    assert_eq!(o.value, 5);
    // usd = orai * ONE_USD / value
    assert_eq!(o.usd_amount(7), 7 * ONE_USD / 5);
    // base = usd * value / ONE_USD
    assert_eq!(o.orai_amount(7 * ONE_USD / 5), 7);
}

#[test]
fn rate_at_boundaries() {
    let just_below = OraiPriceOracle::from_rate(999_999).unwrap();
    assert!(just_below.flag);
    assert_eq!(just_below.value, 1);
    let at_scale = OraiPriceOracle::from_rate(PROBE_AMOUNT).unwrap();
    assert!(!at_scale.flag);
    assert_eq!(at_scale.value, 1);
}

#[test]
fn zero_rate_is_an_arithmetic_error() {
    assert_eq!(OraiPriceOracle::from_rate(0), Err(ContractError::Arithmetic));
}

#[test]
fn unrepresentable_rate_is_an_arithmetic_error() {
    assert_eq!(OraiPriceOracle::from_rate(u128::MAX), Err(ContractError::Arithmetic));
}

#[test]
fn conversions_are_order_preserving() {
    let o = OraiPriceOracle::from_rate(3_500_000).unwrap();
    assert!(o.usd_amount(300) <= o.usd_amount(500));
    assert!(o.orai_amount(300) <= o.orai_amount(500));
}

#[test]
fn round_trip_loses_at_most_one_truncation_unit() {
    // value 3, flag clear: converting to USD multiplies by ONE_USD / 3
    let o = OraiPriceOracle::from_rate(3_000_000).unwrap();
    let x: u128 = 1_000_003;
    let back = o.orai_amount(o.usd_amount(x));
    assert!(back <= x);
    // the truncation unit for this snapshot is value / ONE_USD + 1 == 1
    assert!(x - back <= 1);

    // value 2, flag set: the unit is ONE_USD / value + 1
    let o2 = OraiPriceOracle::from_rate(500_000).unwrap();
    let y: u128 = 3 * ONE_USD / 2 + 12_345;
    let back2 = o2.orai_amount(o2.usd_amount(y));
    assert!(back2 <= y);
    assert!(y - back2 <= ONE_USD / 2 + 1);
}

#[test]
fn checked_conversions_report_overflow() {
    let o = OraiPriceOracle::from_rate(5_000_000).unwrap();
    assert_eq!(o.usd_amount_checked(u128::MAX), None);
    assert_eq!(o.orai_amount_checked(7 * ONE_USD / 5), Some(7));
}
