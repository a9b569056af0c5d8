use vstd::prelude::*;
use anchor_lang::prelude::Pubkey;
use crate::errors::LendingError;
use crate::events::{AssetBorrowed, CollateralDeposited, Liquidation, PositionLiquidated};
use crate::oracle::{get_price_at, price_at, unix_timestamp_now, PriceSource};
use crate::risk::{calculate_health_factor, calculate_interest_rate, health_factor, interest_rate};
use crate::state::{CollateralAccount, DebtAccount, GlobalState, ProtocolStats};

verus! {

/// Units of collateral value required per unit borrowed.
pub const COLLATERAL_RATIO: u64 = 2;

/// Weight, in percent, given to the debt when a position's health is judged.
pub const LIQUIDATION_THRESHOLD: u64 = 200;

/// The liquidator's bonus is the liquidated amount divided by this.
pub const LIQUIDATION_BONUS_DIVISOR: u64 = 100;

/// The accounts a deposit reads and writes.
#[derive(Clone, Copy, Debug, PartialEq, Eq)]
pub struct DepositCollateral {
    pub user: Pubkey,
    pub user_collateral_account: CollateralAccount,
    pub protocol_stats: ProtocolStats,
    pub global_state: GlobalState,
}

/// The accounts and price feeds a loan reads and writes.
#[derive(Clone, Copy, Debug, PartialEq, Eq)]
pub struct Borrow {
    pub user: Pubkey,
    pub user_debt_account: DebtAccount,
    pub user_collateral_account: CollateralAccount,
    pub switchboard_feed: PriceSource,
    pub price_feed: PriceSource,
    pub protocol_stats: ProtocolStats,
    pub global_state: GlobalState,
}

/// The accounts and price feeds a liquidation reads and writes.
#[derive(Clone, Copy, Debug, PartialEq, Eq)]
pub struct Liquidate {
    pub liquidator: Pubkey,
    pub borrower: Pubkey,
    pub borrower_collateral_account: CollateralAccount,
    pub borrower_debt_account: DebtAccount,
    pub switchboard_feed: PriceSource,
    pub price_feed: PriceSource,
    pub global_state: GlobalState,
}

/// What the caller is told of an operation: its notification, or why it was rejected.
pub open spec fn reported<S, E>(outcome: Result<(S, E), LendingError>) -> Result<E, LendingError> {
    match outcome {
        Ok((_, event)) => Ok(event),
        Err(e) => Err(e),
    }
}

/// The accounts after an operation: the next values if it went through,
/// the values before it if it was rejected.
pub open spec fn committed<S, E>(before: S, outcome: Result<(S, E), LendingError>) -> S {
    match outcome {
        Ok((after, _)) => after,
        Err(_) => before,
    }
}

/// Whether a balance fits in the 64 bits an account stores.
pub open spec fn fits(balance: int) -> bool {
    0 <= balance <= u64::MAX
}

/// Pool utilization in percent, rounded down. Meaningful for a pool that
/// holds collateral.
pub open spec fn utilization(stats: ProtocolStats) -> int {
    stats.total_borrowed * 100 / (stats.total_collateral as int)
}

/// Interest capitalized when a loan is granted, rounded down.
pub open spec fn origination_interest(borrow_amount: u64, rate: u64) -> int {
    borrow_amount * rate / 100
}

/// How much of a position a liquidator's repayment liquidates.
pub open spec fn liquidation_amount(repay_amount: u64, debt: u64) -> u64 {
    if repay_amount <= debt {
        repay_amount
    } else {
        debt
    }
}

/// A deposit adds `amount` to the user's collateral and to the pool's total.
/// It is rejected while the protocol is paused, and when either sum leaves
/// the 64-bit range.
pub open spec fn deposit_outcome(ctx: DepositCollateral, amount: u64) -> Result<
    (DepositCollateral, CollateralDeposited),
    LendingError,
> {
    let balance = ctx.user_collateral_account.collateral_amount;
    let total = ctx.protocol_stats.total_collateral;
    if ctx.global_state.paused {
        Err(LendingError::ProtocolPaused)
    } else if !fits(balance + amount) || !fits(total + amount) {
        Err(LendingError::ArithmeticError)
    } else {
        Ok(
            (
                DepositCollateral {
                    user_collateral_account: CollateralAccount { collateral_amount: (balance + amount) as u64 },
                    protocol_stats: ProtocolStats { total_collateral: (total + amount) as u64, ..ctx.protocol_stats },
                    ..ctx
                },
                CollateralDeposited { user: ctx.user, amount },
            ),
        )
    }
}

/// A loan granted at clock reading `now` adds the amount and its origination
/// interest to the user's debt, and the amount to the pool's total.
///
/// It is rejected, in this order: while the protocol is paused; without a
/// price; when the pool holds no collateral; when the collateral value or
/// twice the amount leaves the 64-bit range; when the collateral value is
/// less than twice the amount; when a later computation leaves the 64-bit
/// range.
pub open spec fn borrow_outcome(ctx: Borrow, borrow_amount: u64, now: Option<i64>) -> Result<
    (Borrow, AssetBorrowed),
    LendingError,
> {
    let stats = ctx.protocol_stats;
    let collateral = ctx.user_collateral_account.collateral_amount;
    let debt = ctx.user_debt_account.debt_amount;
    if ctx.global_state.paused {
        Err(LendingError::ProtocolPaused)
    } else {
        match price_at(ctx.price_feed, ctx.switchboard_feed, now) {
            Err(e) => Err(e),
            Ok(price) => {
                let rate = interest_rate(utilization(stats) as u64);
                let interest = origination_interest(borrow_amount, rate);
                if stats.total_collateral == 0 {
                    Err(LendingError::InsufficientCollateral)
                } else if !fits(collateral * price) || !fits(borrow_amount * COLLATERAL_RATIO) {
                    Err(LendingError::ArithmeticError)
                } else if collateral * price < borrow_amount * COLLATERAL_RATIO {
                    Err(LendingError::InsufficientCollateral)
                } else if !fits(stats.total_borrowed * 100) || !fits(borrow_amount * rate) {
                    Err(LendingError::ArithmeticError)
                } else if !fits(debt + borrow_amount + interest) || !fits(stats.total_borrowed + borrow_amount) {
                    Err(LendingError::ArithmeticError)
                } else {
                    Ok(
                        (
                            Borrow {
                                user_debt_account: DebtAccount {
                                    debt_amount: (debt + borrow_amount + interest) as u64,
                                },
                                protocol_stats: ProtocolStats {
                                    total_borrowed: (stats.total_borrowed + borrow_amount) as u64,
                                    ..stats
                                },
                                ..ctx
                            },
                            AssetBorrowed { user: ctx.user, borrow_amount },
                        ),
                    )
                }
            },
        }
    }
}

/// A liquidation at clock reading `now` takes the smaller of the repayment
/// and the debt off both the borrower's debt and the borrower's collateral,
/// and grants the liquidator a hundredth of it as a bonus.
///
/// It is rejected, in this order: while the protocol is paused; without a
/// price; when the collateral value leaves the 64-bit range; when the health
/// factor cannot be computed; when the health factor is 1 or more; when the
/// liquidated amount exceeds the collateral.
pub open spec fn liquidate_outcome(ctx: Liquidate, repay_amount: u64, now: Option<i64>) -> Result<
    (Liquidate, Liquidation),
    LendingError,
> {
    let collateral = ctx.borrower_collateral_account.collateral_amount;
    let debt = ctx.borrower_debt_account.debt_amount;
    let amount = liquidation_amount(repay_amount, debt);
    if ctx.global_state.paused {
        Err(LendingError::ProtocolPaused)
    } else {
        match price_at(ctx.price_feed, ctx.switchboard_feed, now) {
            Err(e) => Err(e),
            Ok(price) => if !fits(collateral * price) {
                Err(LendingError::ArithmeticError)
            } else {
                match health_factor(collateral, price, debt, LIQUIDATION_THRESHOLD) {
                    Err(e) => Err(e),
                    Ok(factor) => if factor >= 1 {
                        Err(LendingError::PositionStillSafe)
                    } else if amount > collateral {
                        Err(LendingError::ArithmeticError)
                    } else {
                        Ok(
                            (
                                Liquidate {
                                    borrower_collateral_account: CollateralAccount {
                                        collateral_amount: (collateral - amount) as u64,
                                    },
                                    borrower_debt_account: DebtAccount { debt_amount: (debt - amount) as u64 },
                                    ..ctx
                                },
                                Liquidation {
                                    event: PositionLiquidated {
                                        borrower: ctx.borrower,
                                        liquidator: ctx.liquidator,
                                        swapped_amount: amount,
                                    },
                                    liquidation_bonus: amount / LIQUIDATION_BONUS_DIVISOR,
                                },
                            ),
                        )
                    },
                }
            },
        }
    }
}

/// Deposits `amount` of collateral for the user.
pub fn deposit_collateral(ctx: &mut DepositCollateral, amount: u64) -> (result: Result<
    CollateralDeposited,
    LendingError,
>)
    ensures
        result == reported(deposit_outcome(*old(ctx), amount)),
        *final(ctx) == committed(*old(ctx), deposit_outcome(*old(ctx), amount)),
        result is Err ==> *final(ctx) == *old(ctx),
        result is Ok ==> {
            &&& final(ctx).user_collateral_account.collateral_amount == old(
                ctx,
            ).user_collateral_account.collateral_amount + amount
            &&& final(ctx).protocol_stats.total_collateral == old(ctx).protocol_stats.total_collateral + amount
        },
        old(ctx).global_state.paused ==> result == Err::<CollateralDeposited, LendingError>(
            LendingError::ProtocolPaused,
        ),
{
    if ctx.global_state.paused {
        return Err(LendingError::ProtocolPaused);
    }
    let balance = match ctx.user_collateral_account.collateral_amount.checked_add(amount) {
        Some(b) => b,
        None => { return Err(LendingError::ArithmeticError); },
    };
    let total = match ctx.protocol_stats.total_collateral.checked_add(amount) {
        Some(t) => t,
        None => { return Err(LendingError::ArithmeticError); },
    };
    ctx.user_collateral_account.collateral_amount = balance;
    ctx.protocol_stats.total_collateral = total;
    Ok(CollateralDeposited { user: ctx.user, amount })
}

/// Grants the user a loan of `borrow_amount` at the clock reading `now`.
pub fn borrow_at(ctx: &mut Borrow, borrow_amount: u64, now: Option<i64>) -> (result: Result<
    AssetBorrowed,
    LendingError,
>)
    ensures
        result == reported(borrow_outcome(*old(ctx), borrow_amount, now)),
        *final(ctx) == committed(*old(ctx), borrow_outcome(*old(ctx), borrow_amount, now)),
        result is Err ==> *final(ctx) == *old(ctx),
        result is Ok ==> {
            &&& final(ctx).user_debt_account.debt_amount == old(ctx).user_debt_account.debt_amount
                + borrow_amount + origination_interest(
                borrow_amount,
                interest_rate(utilization(old(ctx).protocol_stats) as u64),
            )
            &&& final(ctx).protocol_stats.total_borrowed == old(ctx).protocol_stats.total_borrowed
                + borrow_amount
        },
        old(ctx).global_state.paused ==> result == Err::<AssetBorrowed, LendingError>(
            LendingError::ProtocolPaused,
        ),
        !old(ctx).global_state.paused && price_at(old(ctx).price_feed, old(ctx).switchboard_feed, now) is Ok
            && old(ctx).protocol_stats.total_collateral == 0 ==> result == Err::<AssetBorrowed, LendingError>(
            LendingError::InsufficientCollateral,
        ),
{
    if ctx.global_state.paused {
        return Err(LendingError::ProtocolPaused);
    }
    let price = match get_price_at(&ctx.price_feed, &ctx.switchboard_feed, now) {
        Ok(p) => p,
        Err(e) => { return Err(e); },
    };
    let stats = ctx.protocol_stats;
    if stats.total_collateral == 0 {
        return Err(LendingError::InsufficientCollateral);
    }
    let collateral_value = match ctx.user_collateral_account.collateral_amount.checked_mul(price) {
        Some(v) => v,
        None => { return Err(LendingError::ArithmeticError); },
    };
    let required_collateral = match borrow_amount.checked_mul(COLLATERAL_RATIO) {
        Some(r) => r,
        None => { return Err(LendingError::ArithmeticError); },
    };
    if collateral_value < required_collateral {
        return Err(LendingError::InsufficientCollateral);
    }
    let scaled_borrowed = match stats.total_borrowed.checked_mul(100) {
        Some(s) => s,
        None => { return Err(LendingError::ArithmeticError); },
    };
    let rate = calculate_interest_rate(scaled_borrowed / stats.total_collateral);
    let interest = match borrow_amount.checked_mul(rate) {
        Some(i) => i / 100,
        None => { return Err(LendingError::ArithmeticError); },
    };
    let principal = match ctx.user_debt_account.debt_amount.checked_add(borrow_amount) {
        Some(p) => p,
        None => { return Err(LendingError::ArithmeticError); },
    };
    let debt = match principal.checked_add(interest) {
        Some(d) => d,
        None => { return Err(LendingError::ArithmeticError); },
    };
    let total_borrowed = match stats.total_borrowed.checked_add(borrow_amount) {
        Some(t) => t,
        None => { return Err(LendingError::ArithmeticError); },
    };
    ctx.user_debt_account.debt_amount = debt;
    ctx.protocol_stats.total_borrowed = total_borrowed;
    Ok(AssetBorrowed { user: ctx.user, borrow_amount })
}

/// Liquidates up to `repay_amount` of the borrower's debt at the clock reading `now`.
pub fn liquidate_at(ctx: &mut Liquidate, repay_amount: u64, now: Option<i64>) -> (result: Result<
    Liquidation,
    LendingError,
>)
    ensures
        result == reported(liquidate_outcome(*old(ctx), repay_amount, now)),
        *final(ctx) == committed(*old(ctx), liquidate_outcome(*old(ctx), repay_amount, now)),
        result is Err ==> *final(ctx) == *old(ctx),
        result matches Ok(done) ==> {
            &&& done.event.swapped_amount == liquidation_amount(
                repay_amount,
                old(ctx).borrower_debt_account.debt_amount,
            )
            &&& done.liquidation_bonus == done.event.swapped_amount / 100
            &&& final(ctx).borrower_debt_account.debt_amount + done.event.swapped_amount == old(
                ctx,
            ).borrower_debt_account.debt_amount
            &&& final(ctx).borrower_collateral_account.collateral_amount + done.event.swapped_amount == old(
                ctx,
            ).borrower_collateral_account.collateral_amount
        },
        old(ctx).global_state.paused ==> result == Err::<Liquidation, LendingError>(
            LendingError::ProtocolPaused,
        ),
{
    if ctx.global_state.paused {
        return Err(LendingError::ProtocolPaused);
    }
    let price = match get_price_at(&ctx.price_feed, &ctx.switchboard_feed, now) {
        Ok(p) => p,
        Err(e) => { return Err(e); },
    };
    let collateral = ctx.borrower_collateral_account.collateral_amount;
    let debt = ctx.borrower_debt_account.debt_amount;
    if collateral.checked_mul(price).is_none() {
        return Err(LendingError::ArithmeticError);
    }
    let factor = match calculate_health_factor(collateral, price, debt, LIQUIDATION_THRESHOLD) {
        Ok(f) => f,
        Err(e) => { return Err(e); },
    };
    if factor >= 1 {
        return Err(LendingError::PositionStillSafe);
    }
    let amount = if repay_amount <= debt { repay_amount } else { debt };
    if amount > collateral {
        return Err(LendingError::ArithmeticError);
    }
    ctx.borrower_debt_account.debt_amount = debt - amount;
    ctx.borrower_collateral_account.collateral_amount = collateral - amount;
    Ok(
        Liquidation {
            event: PositionLiquidated {
                borrower: ctx.borrower,
                liquidator: ctx.liquidator,
                swapped_amount: amount,
            },
            liquidation_bonus: amount / LIQUIDATION_BONUS_DIVISOR,
        },
    )
}

/// Grants the user a loan of `borrow_amount`, reading the cluster clock.
/// The result is that of a loan granted at whatever the clock gave.
pub fn borrow(ctx: &mut Borrow, borrow_amount: u64) -> (result: Result<AssetBorrowed, LendingError>)
    ensures
        exists|now: Option<i64>|
            {
                &&& result == reported(#[trigger] borrow_outcome(*old(ctx), borrow_amount, now))
                &&& *final(ctx) == committed(*old(ctx), borrow_outcome(*old(ctx), borrow_amount, now))
            },
        result is Err ==> *final(ctx) == *old(ctx),
        old(ctx).global_state.paused ==> result == Err::<AssetBorrowed, LendingError>(
            LendingError::ProtocolPaused,
        ),
{
    let now = unix_timestamp_now();
    borrow_at(ctx, borrow_amount, now)
}

/// Liquidates up to `repay_amount` of the borrower's debt, reading the
/// cluster clock. The result is that of a liquidation at whatever the clock gave.
pub fn liquidate(ctx: &mut Liquidate, repay_amount: u64) -> (result: Result<Liquidation, LendingError>)
    ensures
        exists|now: Option<i64>|
            {
                &&& result == reported(#[trigger] liquidate_outcome(*old(ctx), repay_amount, now))
                &&& *final(ctx) == committed(*old(ctx), liquidate_outcome(*old(ctx), repay_amount, now))
            },
        result is Err ==> *final(ctx) == *old(ctx),
        old(ctx).global_state.paused ==> result == Err::<Liquidation, LendingError>(
            LendingError::ProtocolPaused,
        ),
{
    let now = unix_timestamp_now();
    liquidate_at(ctx, repay_amount, now)
}

} // verus!
