use rust_decimal::Decimal;
use rust_finprim::decimal::Dec;
use rust_finprim::decimal::MAX_UNITS;
use rust_finprim::tvm::fv::fv;
use rust_finprim::tvm::fv::fv_internal;
use rust_finprim::tvm::fv::try_fv;
use rust_finprim::tvm::fv::try_fv_internal;

fn d(num: i128, scale: u32) -> Dec {
    Dec::new(num, scale).unwrap()
}

fn to_decimal(x: Dec) -> Decimal {
    Decimal::from_i128_with_scale(x.num, x.scale)
}

#[test]
fn test_fv() {
    let tol = Decimal::new(1, 5);

    let got = to_decimal(fv_internal(d(5, 2), d(10, 0), d(-100, 0), None, None));
    let expected = Decimal::new(-125778925, 5);
    assert!(
        (got - expected).abs() < tol,
        "Failed on case: {}. Expected {}, got {}",
        "Standard case with 5% rate, 10 periods, and $100 pmt",
        expected,
        got
    );

    let got = to_decimal(fv_internal(d(5, 2), d(10, 0), d(-100, 0), None, Some(true)));
    let expected = Decimal::new(-132067872, 5);
    assert!(
        (got - expected).abs() < tol,
        "Failed on case: {}. Expected {}, got {}",
        "Payment at the beg of period should result in higher future value",
        expected,
        got
    );

    let got = to_decimal(fv_internal(d(0, 0), d(10, 0), d(-100, 0), None, None));
    let expected = Decimal::new(-1000, 0);
    assert!(
        (got - expected).abs() < tol,
        "Failed on case: {}. Expected {}, got {}",
        "Zero interest rate no growth",
        expected,
        got
    );

    let got = to_decimal(fv_internal(d(5, 2), d(10, 0), d(-100, 0), Some(d(1000, 0)), None));
    let expected = Decimal::new(37110537, 5);
    assert!(
        (got - expected).abs() < tol,
        "Failed on case: {}. Expected {}, got {}",
        "Initial investment should result in higher future value",
        expected,
        got
    );

    let got = to_decimal(fv_internal(
        d(5, 3),
        d(10, 0),
        d(-200, 0),
        Some(d(-500, 0)),
        Some(true),
    ));
    let expected = Decimal::new(-25814033741, 7);
    assert!(
        (got - expected).abs() < tol,
        "Failed on case: {}. Expected {}, got {}",
        "Microsoft Excel example: FV(0.06/12, 10, -200, -500, 1) - mathematically correct result",
        expected,
        got
    );
}

#[test]
fn test_fv_excel_compatible() {
    let result1 = to_decimal(fv(d(5, 3), d(10, 0), d(-200, 0), Some(d(-500, 0)), Some(true)));
    assert!(
        (result1 - Decimal::new(258140, 2)).abs() < Decimal::new(1, 2),
        "Microsoft Example 1 failed. Expected 2581.40, got {}",
        result1
    );

    let result2 = to_decimal(fv(d(1, 2), d(12, 0), d(-1000, 0), None, None));
    assert!(
        (result2 - Decimal::new(1268250, 2)).abs() < Decimal::new(1, 2),
        "Microsoft Example 2 failed. Expected 12682.50, got {}",
        result2
    );

    let result3 = to_decimal(fv(d(5, 2), d(10, 0), d(-100, 0), None, None));
    assert!(
        (result3 - Decimal::new(125778925, 5)).abs() < Decimal::new(1, 2),
        "Standard case failed. Expected 1257.78925, got {}",
        result3
    );
}

#[test]
fn test_zero_rate_is_exactly_linear() {
    let got = to_decimal(fv_internal(d(0, 0), d(3, 0), d(-100, 0), Some(d(50, 0)), None));
    assert_eq!(got, Decimal::new(-250, 0));

    let fractional = to_decimal(fv_internal(d(0, 5), d(25, 1), d(-4, 1), None, None));
    assert_eq!(fractional, Decimal::new(-1, 0));
}

#[test]
fn test_fv_is_negated_internal() {
    let spreadsheet = to_decimal(fv(d(5, 2), d(10, 0), d(-100, 0), Some(d(1000, 0)), Some(true)));
    let internal = to_decimal(fv_internal(d(5, 2), d(10, 0), d(-100, 0), Some(d(1000, 0)), Some(true)));
    assert_eq!(spreadsheet, -internal);
}

#[test]
fn test_missing_pv_matches_zero_pv() {
    let absent = fv_internal(d(7, 2), d(6, 0), d(-250, 0), None, Some(true));
    let explicit = fv_internal(d(7, 2), d(6, 0), d(-250, 0), Some(Dec::zero()), Some(true));
    assert_eq!(absent.num, explicit.num);
    assert_eq!(absent.scale, explicit.scale);
}

#[test]
fn test_due_result_more_negative_for_outflow() {
    let ordinary = to_decimal(fv_internal(d(5, 2), d(10, 0), d(-100, 0), None, None));
    let due = to_decimal(fv_internal(d(5, 2), d(10, 0), d(-100, 0), None, Some(true)));
    assert!(due < ordinary);
}

#[test]
fn test_growth_factor_is_a_real_power() {
    let got = to_decimal(fv_internal(d(5, 2), d(2, 0), d(0, 0), Some(d(100, 0)), None));
    assert_eq!(got, Decimal::new(11025, 2));
}

#[test]
fn test_annuity_factor_divides_by_rate() {
    let got = to_decimal(fv_internal(d(3, 0), d(2, 0), d(1, 0), None, None));
    assert_eq!(got, Decimal::new(5, 0));
}

#[test]
fn test_try_fv_internal_agrees_with_fv_internal() {
    let direct = fv_internal(d(5, 2), d(10, 0), d(-100, 0), None, None);
    let tried = try_fv_internal(d(5, 2), d(10, 0), d(-100, 0), None, None).unwrap();
    assert_eq!(direct.num, tried.num);
    assert_eq!(direct.scale, tried.scale);
}

#[test]
fn test_try_fv_agrees_with_fv() {
    let direct = fv(d(1, 2), d(12, 0), d(-1000, 0), None, None);
    let tried = try_fv(d(1, 2), d(12, 0), d(-1000, 0), None, None).unwrap();
    assert_eq!(direct.num, tried.num);
    assert_eq!(direct.scale, tried.scale);
}

#[test]
fn test_overflowing_growth_returns_none() {
    assert!(try_fv_internal(d(10, 0), d(100, 0), d(1, 0), None, None).is_none());
    assert!(try_fv(d(10, 0), d(100, 0), d(1, 0), None, None).is_none());
}

#[test]
fn test_overflowing_linear_accumulation_returns_none() {
    let huge = d(MAX_UNITS, 0);
    assert!(try_fv_internal(d(0, 0), huge, huge, None, None).is_none());
}

#[test]
fn test_new_bounds() {
    assert!(Dec::new(MAX_UNITS, 28).is_some());
    assert!(Dec::new(-MAX_UNITS, 0).is_some());
    assert!(Dec::new(MAX_UNITS + 1, 0).is_none());
    assert!(Dec::new(-MAX_UNITS - 1, 0).is_none());
    assert!(Dec::new(0, 29).is_none());
}

#[test]
fn test_fractional_periods() {
    let got = to_decimal(fv_internal(d(5, 2), d(25, 1), d(0, 0), Some(d(-100, 0)), None));
    let expected = Decimal::new(-1129726, 4);
    assert!((got - expected).abs() < Decimal::new(1, 3), "Expected about {}, got {}", expected, got);
}
