//! Collateral math: pure fixed-point decimal arithmetic over integer unit
//! counts. Every rounding direction is chosen so that the position can never
//! end up under-collateralized: bounds on required collateral round up,
//! amounts of debt taken on round down, debt repaid rounds up.

use vstd::prelude::*;

use crate::Error;

verus! {

/// Number of fixed-point units in 1.0.
pub const DECIMAL_FRACTIONAL: u64 = 1_000_000_000;

/// The fixed-point scale as a mathematical integer.
pub open spec fn scale() -> int {
    DECIMAL_FRACTIONAL as int
}

/// A non-negative fixed-point ratio or price; its value is
/// `units / DECIMAL_FRACTIONAL`.
#[derive(Clone, Copy, Debug, PartialEq, Eq, Structural)]
pub struct Decimal {
    pub units: u64,
}

impl Decimal {
    /// The ratio 1.0.
    pub fn one() -> (r: Decimal)
        ensures
            r.units == scale(),
    {
        Decimal { units: DECIMAL_FRACTIONAL }
    }

    /// The ratio 0.0.
    pub fn zero() -> (r: Decimal)
        ensures
            r.units == 0,
    {
        Decimal { units: 0 }
    }
}

/// Product of two unit counts, scaled back down, rounded toward zero.
pub open spec fn mul_floor(a: int, b: int) -> int {
    (a * b) / scale()
}

/// Product of two unit counts, scaled back down, rounded away from zero.
pub open spec fn mul_ceil(a: int, b: int) -> int {
    (a * b + scale() - 1) / scale()
}

/// Quotient `a / (b / scale())`, i.e. an amount divided by a ratio, rounded
/// toward zero. Meaningful only for `b > 0`.
pub open spec fn div_floor(a: int, b: int) -> int {
    (a * scale()) / b
}

/// The smallest collateral amount that keeps `loan` at `price` within
/// `ratio`, with both stages rounded up.
pub open spec fn min_safe_collateral_spec(loan: int, price: int, ratio: int) -> int {
    mul_ceil(mul_ceil(loan, price), ratio)
}

/// The core safety predicate: collateral covers the loan's value times the
/// required over-collateralization ratio (all sides scaled by `scale()^2` to
/// stay in integers).
pub open spec fn ratio_satisfied(collateral: int, loan: int, price: int, ratio: int) -> bool {
    loan * price * ratio <= collateral * scale() * scale()
}

pub(crate) proof fn lemma_mul_le(x: int, y: int, xb: int, yb: int)
    by (nonlinear_arith)
    requires
        0 <= x <= xb,
        0 <= y <= yb,
    ensures
        0 <= x * y <= xb * yb,
{
}

pub(crate) proof fn lemma_floor_div(x: int, d: int)
    by (nonlinear_arith)
    requires
        0 <= x,
        0 < d,
    ensures
        0 <= x / d,
        (x / d) * d <= x,
{
}

pub(crate) proof fn lemma_ceil_div(x: int, d: int)
    by (nonlinear_arith)
    requires
        0 <= x,
        0 < d,
    ensures
        0 <= (x + d - 1) / d,
        ((x + d - 1) / d) * d >= x,
        x == 0 ==> (x + d - 1) / d == 0,
        x > 0 ==> (x + d - 1) / d >= 1,
{
}

pub(crate) proof fn lemma_div_le(x: int, d: int, b: int)
    by (nonlinear_arith)
    requires
        0 <= x,
        0 < d,
        x <= b * d,
    ensures
        x / d <= b,
{
}

pub(crate) proof fn lemma_div_lt(x: int, d: int, b: int)
    by (nonlinear_arith)
    requires
        0 <= x,
        0 < d,
        x < b * d,
    ensures
        x / d < b,
{
}

pub(crate) proof fn lemma_scale_square_fits(c: int)
    by (nonlinear_arith)
    requires
        0 <= c <= 18446744073709551615,
    ensures
        0 <= c * 1000000000 <= 18446744073709551615000000000,
        0 <= c * 1000000000 * 1000000000 <= 18446744073709551615000000000000000000,
{
}

pub(crate) proof fn lemma_mul_div_gt_iff(x: int, p: int, b: int)
    by (nonlinear_arith)
    requires
        0 < p,
        0 <= x,
        0 <= b,
    ensures
        (x * p > b) <==> (x > b / p),
{
}

/// From `t * s >= l * p` and `m * s >= t * r` (two rounded-up stages) the
/// unscaled safety bound follows.
pub(crate) proof fn lemma_two_stage_ceil(l: int, p: int, r: int, s: int, t: int, m: int)
    by (nonlinear_arith)
    requires
        0 <= l,
        0 <= p,
        0 <= r,
        0 < s,
        0 <= t,
        0 <= m,
        t * s >= l * p,
        m * s >= t * r,
    ensures
        m * s * s >= l * p * r,
{
}

/// From `q * s >= r * p` (rounded-up denominator) and `l * q <= c * s`
/// (rounded-down quotient) it follows that the loan is covered.
pub(crate) proof fn lemma_target_loan_safe(c: int, r: int, p: int, s: int, q: int, l: int)
    by (nonlinear_arith)
    requires
        0 <= c,
        0 <= r,
        0 <= p,
        0 < s,
        0 <= q,
        0 <= l,
        q * s >= r * p,
        l * q <= c * s,
    ensures
        l * p * r <= c * s * s,
{
}

/// The monotonic ratio invariant, connected to its executable guard: a
/// position whose collateral is at least the rounded-up safe bound
/// `min_safe_collateral_spec` satisfies the exact mathematical bound
/// `loan * price * ratio <= collateral` (scaled). Every finalization checks
/// the former, so every committed position enjoys the latter.
pub proof fn lemma_safe_bound_implies_ratio(collateral: int, loan: int, price: int, ratio: int)
    requires
        0 <= loan,
        0 <= price,
        0 <= ratio,
        0 <= collateral,
        min_safe_collateral_spec(loan, price, ratio) <= collateral,
    ensures
        ratio_satisfied(collateral, loan, price, ratio),
{
    let t = mul_ceil(loan, price);
    let m = mul_ceil(t, ratio);
    lemma_mul_le(loan, price, loan, price);
    lemma_ceil_div(loan * price, scale());
    lemma_mul_le(t, ratio, t, ratio);
    lemma_ceil_div(t * ratio, scale());
    lemma_two_stage_ceil(loan, price, ratio, scale(), t, m);
    assert(collateral * scale() * scale() >= m * scale() * scale()) by (nonlinear_arith)
        requires
            m <= collateral,
            0 <= m,
            0 < scale();
}

/// `floor((a * b) / scale())`, the product of two ratios rounded down.
pub fn decimal_multiplication(arg_1: &Decimal, arg_2: &Decimal) -> (r: Result<Decimal, Error>)
    ensures
        match r {
            Ok(c) => c.units == mul_floor(arg_1.units as int, arg_2.units as int),
            Err(e) => e == Error::ArithmeticError && mul_floor(
                arg_1.units as int,
                arg_2.units as int,
            ) > u64::MAX,
        },
{
    proof {
        lemma_mul_le(arg_1.units as int, arg_2.units as int, u64::MAX as int, u64::MAX as int);
    }
    let p: u128 = (arg_1.units as u128) * (arg_2.units as u128);
    let q: u128 = p / (DECIMAL_FRACTIONAL as u128);
    if q > u64::MAX as u128 {
        Err(Error::ArithmeticError)
    } else {
        Ok(Decimal { units: q as u64 })
    }
}

/// The product of two ratios rounded up; used for safety floors, where
/// rounding up is the conservative direction.
pub fn min_safe_ratio(asset_min_ratio: &Decimal, buffer: &Decimal) -> (r: Result<Decimal, Error>)
    ensures
        match r {
            Ok(c) => c.units == mul_ceil(asset_min_ratio.units as int, buffer.units as int),
            Err(e) => e == Error::ArithmeticError && mul_ceil(
                asset_min_ratio.units as int,
                buffer.units as int,
            ) > u64::MAX,
        },
{
    proof {
        lemma_mul_le(
            asset_min_ratio.units as int,
            buffer.units as int,
            u64::MAX as int,
            u64::MAX as int,
        );
    }
    let p: u128 = (asset_min_ratio.units as u128) * (buffer.units as u128);
    let q: u128 = (p + (DECIMAL_FRACTIONAL - 1) as u128) / (DECIMAL_FRACTIONAL as u128);
    if q > u64::MAX as u128 {
        Err(Error::ArithmeticError)
    } else {
        Ok(Decimal { units: q as u64 })
    }
}

/// `floor(num / denom)` on two ratios; division by a zero ratio is refused.
pub fn decimal_division(num: Decimal, denom: Decimal) -> (r: Result<Decimal, Error>)
    ensures
        match r {
            Ok(c) => denom.units > 0 && c.units == div_floor(num.units as int, denom.units as int),
            Err(e) => if denom.units == 0 {
                e == Error::DivideByZero
            } else {
                e == Error::ArithmeticError && div_floor(num.units as int, denom.units as int)
                    > u64::MAX
            },
        },
{
    if denom.units == 0 {
        return Err(Error::DivideByZero);
    }
    proof {
        lemma_mul_le(num.units as int, scale(), u64::MAX as int, scale());
    }
    let p: u128 = (num.units as u128) * (DECIMAL_FRACTIONAL as u128);
    let q: u128 = p / (denom.units as u128);
    if q > u64::MAX as u128 {
        Err(Error::ArithmeticError)
    } else {
        Ok(Decimal { units: q as u64 })
    }
}

/// The multiplicative inverse `1 / d`, rounded down.
pub fn reverse_decimal(decimal: Decimal) -> (r: Result<Decimal, Error>)
    ensures
        match r {
            Ok(c) => decimal.units > 0 && c.units == div_floor(scale(), decimal.units as int),
            Err(e) => if decimal.units == 0 {
                e == Error::DivideByZero
            } else {
                e == Error::ArithmeticError && div_floor(scale(), decimal.units as int) > u64::MAX
            },
        },
{
    decimal_division(Decimal { units: DECIMAL_FRACTIONAL }, decimal)
}

/// `ceil(a * b)` of an amount and a ratio; rounding up is the conservative
/// direction for amounts owed.
pub fn ceiled_mul_uint_decimal(a: u64, b: &Decimal) -> (r: Result<u64, Error>)
    ensures
        match r {
            Ok(v) => v == mul_ceil(a as int, b.units as int),
            Err(e) => e == Error::ArithmeticError && mul_ceil(a as int, b.units as int) > u64::MAX,
        },
{
    proof {
        lemma_mul_le(a as int, b.units as int, u64::MAX as int, u64::MAX as int);
    }
    let p: u128 = (a as u128) * (b.units as u128);
    let q: u128 = (p + (DECIMAL_FRACTIONAL - 1) as u128) / (DECIMAL_FRACTIONAL as u128);
    if q > u64::MAX as u128 {
        Err(Error::ArithmeticError)
    } else {
        Ok(q as u64)
    }
}

/// `floor(a * b)` of an amount and a ratio; rounding down is the conservative
/// direction for amounts released.
pub fn floored_mul_uint_decimal(a: u64, b: &Decimal) -> (r: Result<u64, Error>)
    ensures
        match r {
            Ok(v) => v == mul_floor(a as int, b.units as int),
            Err(e) => e == Error::ArithmeticError && mul_floor(a as int, b.units as int)
                > u64::MAX,
        },
{
    proof {
        lemma_mul_le(a as int, b.units as int, u64::MAX as int, u64::MAX as int);
    }
    let p: u128 = (a as u128) * (b.units as u128);
    let q: u128 = p / (DECIMAL_FRACTIONAL as u128);
    if q > u64::MAX as u128 {
        Err(Error::ArithmeticError)
    } else {
        Ok(q as u64)
    }
}

/// The loan amount whose value at `price` sits exactly at `aim_ratio` under
/// `collateral`: `collateral / (aim_ratio * price)`. The denominator rounds
/// up and the quotient rounds down, so the result can never overshoot the
/// ratio; the final clause states that guarantee.
pub fn target_loan_for_ratio(collateral: u64, aim_ratio: &Decimal, price: &Decimal) -> (r: Result<
    u64,
    Error,
>)
    ensures
        match r {
            Ok(l) => {
                &&& aim_ratio.units * price.units > 0
                &&& l == (collateral * scale()) / mul_ceil(aim_ratio.units as int, price.units as int)
                &&& ratio_satisfied(collateral as int, l as int, price.units as int, aim_ratio.units as int)
            },
            Err(e) => if aim_ratio.units * price.units == 0 {
                e == Error::DivideByZero
            } else {
                e == Error::ArithmeticError && (collateral * scale()) / mul_ceil(
                    aim_ratio.units as int,
                    price.units as int,
                ) > u64::MAX
            },
        },
{
    proof {
        lemma_mul_le(aim_ratio.units as int, price.units as int, u64::MAX as int, u64::MAX as int);
        lemma_mul_le(collateral as int, scale(), u64::MAX as int, scale());
    }
    let rp: u128 = (aim_ratio.units as u128) * (price.units as u128);
    if rp == 0 {
        return Err(Error::DivideByZero);
    }
    let q: u128 = (rp + (DECIMAL_FRACTIONAL - 1) as u128) / (DECIMAL_FRACTIONAL as u128);
    proof {
        lemma_ceil_div(rp as int, scale());
    }
    let cs: u128 = (collateral as u128) * (DECIMAL_FRACTIONAL as u128);
    let l: u128 = cs / q;
    if l > u64::MAX as u128 {
        Err(Error::ArithmeticError)
    } else {
        proof {
            lemma_floor_div(cs as int, q as int);
            lemma_target_loan_safe(
                collateral as int,
                aim_ratio.units as int,
                price.units as int,
                scale(),
                q as int,
                l as int,
            );
        }
        Ok(l as u64)
    }
}

/// How much must be minted this iteration to lift the loan from
/// `current_loan` to `target_loan`. The system only ever increases the loan
/// during lever-up, so a non-positive delta is a bookkeeping fault, never
/// silently clamped.
pub fn mint_amount_this_iteration(current_loan: u64, target_loan: u64) -> (r: Result<u64, Error>)
    ensures
        match r {
            Ok(v) => target_loan > current_loan && v == target_loan - current_loan,
            Err(e) => e == Error::InvalidState && target_loan <= current_loan,
        },
{
    if target_loan <= current_loan {
        Err(Error::InvalidState)
    } else {
        Ok(target_loan - current_loan)
    }
}

/// The smallest collateral that keeps `loan` at `price` within `safe_ratio`,
/// both stages rounded up; the final clause states that the result is never
/// an under-estimate of the exact bound.
pub fn min_safe_collateral(loan: u64, price: &Decimal, safe_ratio: &Decimal) -> (r: Result<
    u64,
    Error,
>)
    ensures
        match r {
            Ok(m) => {
                &&& m == min_safe_collateral_spec(
                    loan as int,
                    price.units as int,
                    safe_ratio.units as int,
                )
                &&& mul_ceil(loan as int, price.units as int) <= u64::MAX
                &&& m * scale() * scale() >= loan * price.units * safe_ratio.units
            },
            Err(e) => {
                &&& e == Error::ArithmeticError
                &&& (mul_ceil(loan as int, price.units as int) > u64::MAX || min_safe_collateral_spec(
                    loan as int,
                    price.units as int,
                    safe_ratio.units as int,
                ) > u64::MAX)
            },
        },
{
    let t = match ceiled_mul_uint_decimal(loan, price) {
        Ok(t) => t,
        Err(e) => {
            return Err(e);
        },
    };
    let m = match ceiled_mul_uint_decimal(t, safe_ratio) {
        Ok(m) => m,
        Err(e) => {
            return Err(e);
        },
    };
    proof {
        lemma_ceil_div(loan as int * price.units as int, scale());
        lemma_ceil_div(t as int * safe_ratio.units as int, scale());
        lemma_two_stage_ceil(
            loan as int,
            price.units as int,
            safe_ratio.units as int,
            scale(),
            t as int,
            m as int,
        );
    }
    Ok(m)
}

/// How much collateral can be released while the rest still covers the loan:
/// `collateral - loan * price * safe_ratio`, floored at zero. The subtracted
/// bound rounds up, so the released amount rounds down.
pub fn safe_withdrawable(collateral: u64, loan: u64, price: &Decimal, safe_ratio: &Decimal) -> (r:
    Result<u64, Error>)
    ensures
        match r {
            Ok(v) => {
                let m = min_safe_collateral_spec(
                    loan as int,
                    price.units as int,
                    safe_ratio.units as int,
                );
                v == if m >= collateral {
                    0int
                } else {
                    collateral - m
                }
            },
            Err(e) => {
                &&& e == Error::ArithmeticError
                &&& (mul_ceil(loan as int, price.units as int) > u64::MAX || min_safe_collateral_spec(
                    loan as int,
                    price.units as int,
                    safe_ratio.units as int,
                ) > u64::MAX)
            },
        },
{
    let m = match min_safe_collateral(loan, price, safe_ratio) {
        Ok(m) => m,
        Err(e) => {
            return Err(e);
        },
    };
    if m >= collateral {
        Ok(0)
    } else {
        Ok(collateral - m)
    }
}

/// The stable value of the debt still to be repurchased and burned to bring
/// `loan` down to `aim_loan`: `(loan - aim_loan) * price`, rounded up since
/// it sizes debt repaid. A shortfall `loan < aim_loan` is a bookkeeping
/// fault.
pub fn repay_value(loan: u64, aim_loan: u64, price: &Decimal) -> (r: Result<u64, Error>)
    ensures
        match r {
            Ok(v) => loan >= aim_loan && v == mul_ceil((loan - aim_loan) as int, price.units as int),
            Err(e) => if loan < aim_loan {
                e == Error::ArithmeticError
            } else {
                e == Error::ArithmeticError && mul_ceil((loan - aim_loan) as int, price.units as int)
                    > u64::MAX
            },
        },
{
    if loan < aim_loan {
        return Err(Error::ArithmeticError);
    }
    ceiled_mul_uint_decimal(loan - aim_loan, price)
}

/// The fee taken out of a transfer of `amount` at tax rate `rate`, capped at
/// `cap` but never below one unit: `ceil(amount * (1 - 1/(1 + rate)))`.
pub open spec fn tax_deducted(amount: int, rate: int, cap: int) -> int {
    let inv = div_floor(scale(), scale() + rate);
    let tax = mul_ceil(amount, scale() - inv);
    let capped = if tax <= cap {
        tax
    } else {
        cap
    };
    if capped >= 1 {
        amount - capped
    } else {
        amount - 1
    }
}

/// What remains of `amount` after the transfer tax. A zero transfer carries
/// no tax; otherwise at least one unit is always deducted.
pub fn get_taxed(amount: u64, rate: &Decimal, cap: u64) -> (r: Result<u64, Error>)
    ensures
        match r {
            Ok(v) => {
                &&& v == if amount == 0 {
                    0int
                } else {
                    tax_deducted(amount as int, rate.units as int, cap as int)
                }
                &&& v <= amount
            },
            Err(e) => e == Error::ArithmeticError && scale() + rate.units > u64::MAX,
        },
{
    if amount == 0 {
        return Ok(0);
    }
    let one_plus = match DECIMAL_FRACTIONAL.checked_add(rate.units) {
        Some(v) => v,
        None => {
            return Err(Error::ArithmeticError);
        },
    };
    proof {
        // 1 / (1 + rate) is at most 1, so the rate part stays in range.
        lemma_mul_le(scale(), scale(), scale(), one_plus as int);
        lemma_div_le(scale() * scale(), one_plus as int, scale());
    }
    let inv = match decimal_division(
        Decimal { units: DECIMAL_FRACTIONAL },
        Decimal { units: one_plus },
    ) {
        Ok(v) => v,
        Err(_) => {
            return Err(Error::ArithmeticError);
        },
    };
    let rate_part = Decimal { units: DECIMAL_FRACTIONAL - inv.units };
    proof {
        // The taxed part of the amount never exceeds the amount itself.
        lemma_mul_le(amount as int, rate_part.units as int, amount as int, scale());
        assert(amount * rate_part.units + scale() - 1 < (amount + 1) * scale()) by (nonlinear_arith)
            requires
                rate_part.units <= scale(),
                0 < scale(),
                0 <= amount;
        lemma_div_lt(
            amount as int * rate_part.units as int + scale() - 1,
            scale(),
            amount as int + 1,
        );
    }
    let tax = match ceiled_mul_uint_decimal(amount, &rate_part) {
        Ok(v) => v,
        Err(_) => {
            return Err(Error::ArithmeticError);
        },
    };
    let capped = if tax <= cap {
        tax
    } else {
        cap
    };
    let fee = if capped >= 1 {
        capped
    } else {
        1
    };
    Ok(amount - fee)
}

} // verus!
