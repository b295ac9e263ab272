use structured_note::math::{
    ceiled_mul_uint_decimal, decimal_division, decimal_multiplication, floored_mul_uint_decimal,
    get_taxed, min_safe_collateral, min_safe_ratio, mint_amount_this_iteration, repay_value,
    reverse_decimal, safe_withdrawable, target_loan_for_ratio, Decimal, DECIMAL_FRACTIONAL,
};
use structured_note::Error;

fn dec(units: u64) -> Decimal {
    Decimal { units }
}

const ONE: u64 = DECIMAL_FRACTIONAL; // 1.0

#[test]
fn decimal_multiplication_is_exact() {
    // 1.5 * 2.0 == 3.0
    let r = decimal_multiplication(&dec(3 * ONE / 2), &dec(2 * ONE)).unwrap();
    assert_eq!(r.units, 3 * ONE);
}

#[test]
fn decimal_multiplication_rounds_down() {
    // (1/10^9) * (1/10^9) rounds down to zero
    let r = decimal_multiplication(&dec(1), &dec(1)).unwrap();
    assert_eq!(r.units, 0);
}

#[test]
fn min_safe_ratio_rounds_up() {
    // The safety floor rounds the same product up, asymmetrically to the
    // plain multiplication.
    let r = min_safe_ratio(&dec(1), &dec(1)).unwrap();
    assert_eq!(r.units, 1);
    let floor = decimal_multiplication(&dec(1), &dec(1)).unwrap();
    assert!(r.units > floor.units);
}

#[test]
fn decimal_multiplication_overflows() {
    let r = decimal_multiplication(&dec(u64::MAX), &dec(u64::MAX));
    assert_eq!(r, Err(Error::ArithmeticError));
}

#[test]
fn decimal_division_is_exact() {
    // 3.0 / 2.0 == 1.5
    let r = decimal_division(dec(3 * ONE), dec(2 * ONE)).unwrap();
    assert_eq!(r.units, 3 * ONE / 2);
}

#[test]
fn decimal_division_by_zero() {
    assert_eq!(decimal_division(dec(ONE), dec(0)), Err(Error::DivideByZero));
}

#[test]
fn reverse_decimal_inverts() {
    // 1 / 4.0 == 0.25
    let r = reverse_decimal(dec(4 * ONE)).unwrap();
    assert_eq!(r.units, ONE / 4);
    assert_eq!(reverse_decimal(dec(0)), Err(Error::DivideByZero));
}

#[test]
fn ceiled_and_floored_mul_are_asymmetric() {
    // 3 * 0.5 is exact both ways; 3 * 0.4 floors to 1 and ceils to 2.
    let point_four = dec(2 * ONE / 5);
    assert_eq!(floored_mul_uint_decimal(3, &point_four).unwrap(), 1);
    assert_eq!(ceiled_mul_uint_decimal(3, &point_four).unwrap(), 2);
    let half = dec(ONE / 2);
    assert_eq!(floored_mul_uint_decimal(3, &half).unwrap(), 1);
    assert_eq!(ceiled_mul_uint_decimal(3, &half).unwrap(), 2);
    assert_eq!(floored_mul_uint_decimal(4, &half).unwrap(), 2);
    assert_eq!(ceiled_mul_uint_decimal(4, &half).unwrap(), 2);
}

#[test]
fn target_loan_rounds_down() {
    // 1000 / (2.0 * 1.0) == 500
    let r = target_loan_for_ratio(1000, &dec(2 * ONE), &dec(ONE)).unwrap();
    assert_eq!(r, 500);
    // 1001 / 2.0 rounds the loan down, never up
    let r = target_loan_for_ratio(1001, &dec(2 * ONE), &dec(ONE)).unwrap();
    assert_eq!(r, 500);
}

#[test]
fn target_loan_divide_by_zero() {
    assert_eq!(
        target_loan_for_ratio(1000, &dec(0), &dec(ONE)),
        Err(Error::DivideByZero)
    );
    assert_eq!(
        target_loan_for_ratio(1000, &dec(2 * ONE), &dec(0)),
        Err(Error::DivideByZero)
    );
}

#[test]
fn mint_amount_requires_positive_delta() {
    assert_eq!(mint_amount_this_iteration(200, 500).unwrap(), 300);
    assert_eq!(mint_amount_this_iteration(500, 500), Err(Error::InvalidState));
    assert_eq!(mint_amount_this_iteration(600, 500), Err(Error::InvalidState));
}

#[test]
fn min_safe_collateral_rounds_up_twice() {
    // loan 3 at price 0.5 needs ceil(ceil(1.5) * 1.5) = ceil(2 * 1.5) = 3
    let r = min_safe_collateral(3, &dec(ONE / 2), &dec(3 * ONE / 2)).unwrap();
    assert_eq!(r, 3);
    // exact case: loan 200 at price 1.0, ratio 1.2 -> 240
    let r = min_safe_collateral(200, &dec(ONE), &dec(12 * ONE / 10)).unwrap();
    assert_eq!(r, 240);
}

#[test]
fn safe_withdrawable_floors_at_zero() {
    // collateral 100 fully covers: 100 - 240 floors to 0
    let r = safe_withdrawable(100, 200, &dec(ONE), &dec(12 * ONE / 10)).unwrap();
    assert_eq!(r, 0);
    let r = safe_withdrawable(500, 200, &dec(ONE), &dec(12 * ONE / 10)).unwrap();
    assert_eq!(r, 260);
}

#[test]
fn repay_value_rounds_up() {
    // (5 - 2) * 1.5 == 4.5, rounded up to 5 since it sizes debt repaid
    let r = repay_value(5, 2, &dec(3 * ONE / 2)).unwrap();
    assert_eq!(r, 5);
    // a loan below its aim is a bookkeeping fault
    assert_eq!(repay_value(1, 2, &dec(ONE)), Err(Error::ArithmeticError));
}

#[test]
fn get_taxed_zero_amount_is_free() {
    assert_eq!(get_taxed(0, &dec(ONE / 100), 1_000_000).unwrap(), 0);
}

#[test]
fn get_taxed_deducts_at_least_one_unit() {
    // at rate zero the minimum one-unit fee still applies
    assert_eq!(get_taxed(500, &dec(0), 1_000_000).unwrap(), 499);
}

#[test]
fn get_taxed_applies_rate_and_cap() {
    // rate 100%: rate part = 1 - 1/2 = 0.5, tax = ceil(1000 * 0.5) = 500
    assert_eq!(get_taxed(1000, &dec(ONE), 1_000_000).unwrap(), 500);
    // the same tax capped at 10
    assert_eq!(get_taxed(1000, &dec(ONE), 10).unwrap(), 990);
}
