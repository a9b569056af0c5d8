use vstd::prelude::*;
use crate::errors::LendingError;

verus! {

/// Utilization, in percent, from which the interest rate starts to rise.
pub const KINK_UTILIZATION: u64 = 80;

/// Interest rate, in percent, charged below the kink.
pub const BASE_RATE: u64 = 5;

/// Interest rate, in percent, charged at the kink.
pub const KINK_RATE: u64 = 10;

/// The health factor of a position: how many times its collateral value
/// covers its debt weighted by the liquidation threshold, rounded down.
/// A position without debt has the largest health factor there is.
pub open spec fn health_factor(
    collateral: u64,
    collateral_price: u64,
    debt: u64,
    liquidation_threshold: u64,
) -> Result<u64, LendingError> {
    if debt == 0 {
        Ok(u64::MAX)
    } else if collateral * collateral_price > u64::MAX
        || debt * liquidation_threshold > u64::MAX
        || debt * liquidation_threshold == 0 {
        Err(LendingError::ArithmeticError)
    } else {
        Ok(((collateral * collateral_price) / (debt * liquidation_threshold)) as u64)
    }
}

/// The interest rate, in percent, at a pool utilization given in percent:
/// flat below the kink, then rising one point per point of utilization.
pub open spec fn interest_rate(utilization: u64) -> u64 {
    if utilization < KINK_UTILIZATION {
        BASE_RATE
    } else {
        (KINK_RATE + (utilization - KINK_UTILIZATION)) as u64
    }
}

/// Computes the health factor of a position.
///
/// Fails with `ArithmeticError` when the position has debt and either product
/// leaves the 64-bit range or the weighted debt is zero.
pub fn calculate_health_factor(
    collateral: u64,
    collateral_price: u64,
    debt: u64,
    liquidation_threshold: u64,
) -> (factor: Result<u64, LendingError>)
    ensures
        factor == health_factor(collateral, collateral_price, debt, liquidation_threshold),
        debt == 0 ==> factor == Ok::<u64, LendingError>(u64::MAX),
{
    if debt == 0 {
        return Ok(u64::MAX);
    }
    let value = match collateral.checked_mul(collateral_price) {
        Some(v) => v,
        None => { return Err(LendingError::ArithmeticError); },
    };
    let weighted_debt = match debt.checked_mul(liquidation_threshold) {
        Some(w) => w,
        None => { return Err(LendingError::ArithmeticError); },
    };
    if weighted_debt == 0 {
        return Err(LendingError::ArithmeticError);
    }
    Ok(value / weighted_debt)
}

/// Computes the interest rate, in percent, for a pool utilization in percent.
pub fn calculate_interest_rate(utilization: u64) -> (rate: u64)
    ensures
        rate == interest_rate(utilization),
        utilization < 80 ==> rate == 5,
        utilization >= 80 ==> rate == utilization - 70,
{
    if utilization < KINK_UTILIZATION {
        BASE_RATE
    } else {
        KINK_RATE + (utilization - KINK_UTILIZATION)
    }
}

/// The health factor depends on its four inputs and on nothing else: asked
/// twice about equal inputs, it gives equal answers.
pub proof fn lemma_health_factor_repeatable(
    first: (u64, u64, u64, u64),
    second: (u64, u64, u64, u64),
)
    requires
        first == second,
    ensures
        health_factor(first.0, first.1, first.2, first.3) == health_factor(
            second.0,
            second.1,
            second.2,
            second.3,
        ),
{
}

/// A position with debt has a health factor below 1 exactly when its
/// collateral value is less than its weighted debt.
pub proof fn lemma_unhealthy_iff_undercollateralized(
    collateral: u64,
    collateral_price: u64,
    debt: u64,
    liquidation_threshold: u64,
)
    requires
        health_factor(collateral, collateral_price, debt, liquidation_threshold) is Ok,
        debt > 0,
    ensures
        health_factor(collateral, collateral_price, debt, liquidation_threshold)->Ok_0 < 1 <==> collateral
            * collateral_price < debt * liquidation_threshold,
{
    let value = collateral * collateral_price;
    let weighted_debt = debt * liquidation_threshold;
    assert(value >= 0 && weighted_debt > 0 ==> (value / weighted_debt < 1 <==> value < weighted_debt))
        by (nonlinear_arith);
    assert(value >= 0) by (nonlinear_arith)
        requires
            value == collateral * collateral_price,
    ;
}

} // verus!
