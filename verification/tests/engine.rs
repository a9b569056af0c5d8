use anchor_lang::prelude::Pubkey;
use lst_lending_amm::{
    borrow, borrow_at, deposit_collateral, liquidate, liquidate_at, AssetBorrowed, Borrow,
    CollateralAccount, CollateralDeposited, DebtAccount, DepositCollateral, FeedPrice, GlobalState,
    LendingError, Liquidate, Liquidation, PositionLiquidated, PriceSource, ProtocolStats,
};

const NOW: i64 = 1_700_000_000;

fn key(tag: u8) -> Pubkey {
    Pubkey::new_from_array([tag; 32])
}

fn running() -> GlobalState {
    GlobalState { paused: false, admin: key(9) }
}

fn paused() -> GlobalState {
    GlobalState { paused: true, admin: key(9) }
}

fn publishing(price: i64) -> PriceSource {
    PriceSource { latest: Some(FeedPrice { price, conf: 0, expo: 0, publish_time: NOW - 10 }) }
}

fn stale(price: i64) -> PriceSource {
    PriceSource { latest: Some(FeedPrice { price, conf: 0, expo: 0, publish_time: NOW - 61 }) }
}

fn unreadable() -> PriceSource {
    PriceSource { latest: None }
}

fn stats(total_collateral: u64, total_borrowed: u64) -> ProtocolStats {
    ProtocolStats { total_collateral, total_borrowed, total_liquidations: 0 }
}

fn deposit_accounts(collateral: u64, pool: ProtocolStats) -> DepositCollateral {
    DepositCollateral {
        user: key(1),
        user_collateral_account: CollateralAccount { collateral_amount: collateral },
        protocol_stats: pool,
        global_state: running(),
    }
}

fn borrow_accounts(collateral: u64, debt: u64, price: i64, pool: ProtocolStats) -> Borrow {
    Borrow {
        user: key(1),
        user_debt_account: DebtAccount { debt_amount: debt },
        user_collateral_account: CollateralAccount { collateral_amount: collateral },
        switchboard_feed: unreadable(),
        price_feed: publishing(price),
        protocol_stats: pool,
        global_state: running(),
    }
}

fn liquidate_accounts(collateral: u64, debt: u64, price: i64) -> Liquidate {
    Liquidate {
        liquidator: key(2),
        borrower: key(1),
        borrower_collateral_account: CollateralAccount { collateral_amount: collateral },
        borrower_debt_account: DebtAccount { debt_amount: debt },
        switchboard_feed: unreadable(),
        price_feed: publishing(price),
        global_state: running(),
    }
}

#[test]
fn deposit_adds_to_the_position_and_to_the_total() {
    let mut ctx = deposit_accounts(0, stats(0, 0));
    let event = deposit_collateral(&mut ctx, 1000);
    assert_eq!(event, Ok(CollateralDeposited { user: key(1), amount: 1000 }));
    assert_eq!(ctx.user_collateral_account.collateral_amount, 1000);
    assert_eq!(ctx.protocol_stats, stats(1000, 0));
    assert_eq!(ctx.global_state, running());
    assert_eq!(ctx.user, key(1));
}

#[test]
fn deposit_on_top_of_existing_balances() {
    let mut ctx = deposit_accounts(250, ProtocolStats { total_collateral: 4000, total_borrowed: 700, total_liquidations: 3 });
    assert_eq!(deposit_collateral(&mut ctx, 50), Ok(CollateralDeposited { user: key(1), amount: 50 }));
    assert_eq!(ctx.user_collateral_account.collateral_amount, 300);
    assert_eq!(
        ctx.protocol_stats,
        ProtocolStats { total_collateral: 4050, total_borrowed: 700, total_liquidations: 3 }
    );
}

#[test]
fn deposit_of_nothing_changes_nothing() {
    let mut ctx = deposit_accounts(250, stats(4000, 700));
    let before = ctx;
    assert_eq!(deposit_collateral(&mut ctx, 0), Ok(CollateralDeposited { user: key(1), amount: 0 }));
    assert_eq!(ctx, before);
}

#[test]
fn deposit_is_rejected_while_paused() {
    let mut ctx = deposit_accounts(250, stats(4000, 700));
    ctx.global_state = paused();
    let before = ctx;
    assert_eq!(deposit_collateral(&mut ctx, 50), Err(LendingError::ProtocolPaused));
    assert_eq!(ctx, before);
}

#[test]
fn deposit_that_overflows_the_balance_is_rejected() {
    let mut ctx = deposit_accounts(u64::MAX - 5, stats(0, 0));
    let before = ctx;
    assert_eq!(deposit_collateral(&mut ctx, 6), Err(LendingError::ArithmeticError));
    assert_eq!(ctx, before);
    assert!(deposit_collateral(&mut ctx, 5).is_ok());
    assert_eq!(ctx.user_collateral_account.collateral_amount, u64::MAX);
    assert_eq!(ctx.protocol_stats.total_collateral, 5);
}

#[test]
fn deposit_that_overflows_the_total_is_rejected() {
    let mut ctx = deposit_accounts(10, stats(u64::MAX - 5, 0));
    let before = ctx;
    assert_eq!(deposit_collateral(&mut ctx, 6), Err(LendingError::ArithmeticError));
    assert_eq!(ctx, before);
}

#[test]
fn borrow_within_the_ratio_capitalizes_interest() {
    let mut ctx = borrow_accounts(1000, 0, 2, stats(1000, 0));
    let event = borrow_at(&mut ctx, 900, Some(NOW));
    assert_eq!(event, Ok(AssetBorrowed { user: key(1), borrow_amount: 900 }));
    assert_eq!(ctx.user_debt_account.debt_amount, 945);
    assert_eq!(ctx.protocol_stats, stats(1000, 900));
    assert_eq!(ctx.user_collateral_account.collateral_amount, 1000);
}

#[test]
fn borrow_beyond_the_ratio_is_rejected() {
    let mut ctx = borrow_accounts(1000, 0, 2, stats(1000, 0));
    let before = ctx;
    assert_eq!(borrow_at(&mut ctx, 1100, Some(NOW)), Err(LendingError::InsufficientCollateral));
    assert_eq!(ctx, before);
}

#[test]
fn borrow_at_exactly_the_ratio_goes_through() {
    let mut ctx = borrow_accounts(1000, 0, 2, stats(1000, 0));
    assert!(borrow_at(&mut ctx, 1000, Some(NOW)).is_ok());
    assert_eq!(ctx.user_debt_account.debt_amount, 1050);
    let mut ctx = borrow_accounts(1000, 0, 2, stats(1000, 0));
    assert_eq!(borrow_at(&mut ctx, 1001, Some(NOW)), Err(LendingError::InsufficientCollateral));
}

#[test]
fn borrow_from_a_pool_without_collateral_is_rejected() {
    let mut ctx = borrow_accounts(1000, 0, 2, stats(0, 0));
    let before = ctx;
    assert_eq!(borrow_at(&mut ctx, 900, Some(NOW)), Err(LendingError::InsufficientCollateral));
    assert_eq!(ctx, before);
    let mut ctx = borrow_accounts(0, 0, 2, stats(0, 0));
    assert_eq!(borrow_at(&mut ctx, 0, Some(NOW)), Err(LendingError::InsufficientCollateral));
    let mut ctx = borrow_accounts(u64::MAX, 0, 2, stats(0, 0));
    assert_eq!(borrow_at(&mut ctx, u64::MAX, Some(NOW)), Err(LendingError::InsufficientCollateral));
}

#[test]
fn borrow_adds_to_existing_debt() {
    let mut ctx = borrow_accounts(1000, 300, 2, stats(5000, 1000));
    assert!(borrow_at(&mut ctx, 100, Some(NOW)).is_ok());
    assert_eq!(ctx.user_debt_account.debt_amount, 405);
    assert_eq!(ctx.protocol_stats, stats(5000, 1100));
}

#[test]
fn borrow_rate_follows_utilization() {
    let mut ctx = borrow_accounts(1000, 0, 2, stats(1000, 790));
    assert!(borrow_at(&mut ctx, 100, Some(NOW)).is_ok());
    assert_eq!(ctx.user_debt_account.debt_amount, 105);
    let mut ctx = borrow_accounts(1000, 0, 2, stats(1000, 800));
    assert!(borrow_at(&mut ctx, 100, Some(NOW)).is_ok());
    assert_eq!(ctx.user_debt_account.debt_amount, 110);
    let mut ctx = borrow_accounts(1000, 0, 2, stats(1000, 900));
    assert!(borrow_at(&mut ctx, 100, Some(NOW)).is_ok());
    assert_eq!(ctx.user_debt_account.debt_amount, 120);
    assert_eq!(ctx.protocol_stats, stats(1000, 1000));
    let mut ctx = borrow_accounts(1000, 0, 2, stats(1000, 2000));
    assert!(borrow_at(&mut ctx, 100, Some(NOW)).is_ok());
    assert_eq!(ctx.user_debt_account.debt_amount, 230);
}

#[test]
fn borrow_interest_is_rounded_down() {
    let mut ctx = borrow_accounts(1000, 0, 2, stats(1000, 0));
    assert!(borrow_at(&mut ctx, 19, Some(NOW)).is_ok());
    assert_eq!(ctx.user_debt_account.debt_amount, 19);
    assert!(borrow_at(&mut ctx, 39, Some(NOW)).is_ok());
    assert_eq!(ctx.user_debt_account.debt_amount, 19 + 39 + 1);
    assert_eq!(ctx.protocol_stats, stats(1000, 58));
}

#[test]
fn borrow_of_nothing_changes_nothing() {
    let mut ctx = borrow_accounts(0, 7, 2, stats(1000, 500));
    let before = ctx;
    assert_eq!(borrow_at(&mut ctx, 0, Some(NOW)), Ok(AssetBorrowed { user: key(1), borrow_amount: 0 }));
    assert_eq!(ctx, before);
}

#[test]
fn borrow_is_rejected_while_paused() {
    let mut ctx = borrow_accounts(1000, 0, 2, stats(1000, 0));
    ctx.global_state = paused();
    let before = ctx;
    assert_eq!(borrow_at(&mut ctx, 900, Some(NOW)), Err(LendingError::ProtocolPaused));
    assert_eq!(ctx, before);
    ctx.price_feed = unreadable();
    assert_eq!(borrow_at(&mut ctx, 900, None), Err(LendingError::ProtocolPaused));
}

#[test]
fn borrow_without_a_fresh_price_is_rejected() {
    let mut ctx = borrow_accounts(1000, 0, 2, stats(1000, 0));
    ctx.price_feed = stale(2);
    ctx.switchboard_feed = stale(2);
    let before = ctx;
    assert_eq!(borrow_at(&mut ctx, 900, Some(NOW)), Err(LendingError::InvalidOracle));
    assert_eq!(ctx, before);
    ctx.price_feed = publishing(2);
    assert_eq!(borrow_at(&mut ctx, 900, None), Err(LendingError::InvalidOracle));
    assert_eq!(borrow_at(&mut ctx, 900, Some(-NOW)), Err(LendingError::InvalidOracle));
    assert_eq!(ctx, Borrow { price_feed: publishing(2), ..before });
}

#[test]
fn borrow_uses_the_fallback_feed_when_the_primary_is_stale() {
    let mut ctx = borrow_accounts(1000, 0, 1, stats(1000, 0));
    ctx.price_feed = stale(1);
    ctx.switchboard_feed = publishing(2);
    assert!(borrow_at(&mut ctx, 900, Some(NOW)).is_ok());
    assert_eq!(ctx.user_debt_account.debt_amount, 945);
    let mut ctx = borrow_accounts(1000, 0, 1, stats(1000, 0));
    ctx.switchboard_feed = publishing(2);
    assert_eq!(borrow_at(&mut ctx, 900, Some(NOW)), Err(LendingError::InsufficientCollateral));
}

#[test]
fn borrow_with_values_out_of_range_is_rejected() {
    let mut ctx = borrow_accounts(u64::MAX, 0, 2, stats(1000, 0));
    let before = ctx;
    assert_eq!(borrow_at(&mut ctx, 1, Some(NOW)), Err(LendingError::ArithmeticError));
    assert_eq!(ctx, before);
    let mut ctx = borrow_accounts(u64::MAX, 0, 1, stats(1000, 0));
    assert_eq!(borrow_at(&mut ctx, (1 << 63) + 1, Some(NOW)), Err(LendingError::ArithmeticError));
    let mut ctx = borrow_accounts(1000, 0, 2, stats(1000, u64::MAX / 100 + 1));
    assert_eq!(borrow_at(&mut ctx, 1, Some(NOW)), Err(LendingError::ArithmeticError));
    let mut ctx = borrow_accounts(u64::MAX, 0, 1, stats(u64::MAX, 0));
    assert_eq!(borrow_at(&mut ctx, u64::MAX / 4, Some(NOW)), Err(LendingError::ArithmeticError));
    let mut ctx = borrow_accounts(1000, u64::MAX - 104, 2, stats(1000, 0));
    let before = ctx;
    assert_eq!(borrow_at(&mut ctx, 100, Some(NOW)), Err(LendingError::ArithmeticError));
    assert_eq!(ctx, before);
    let mut ctx = borrow_accounts(1000, u64::MAX - 105, 2, stats(1000, 0));
    assert!(borrow_at(&mut ctx, 100, Some(NOW)).is_ok());
    assert_eq!(ctx.user_debt_account.debt_amount, u64::MAX);
    let mut ctx = borrow_accounts(1000, 0, 2, stats(u64::MAX, u64::MAX / 100));
    assert!(borrow_at(&mut ctx, 100, Some(NOW)).is_ok());
    let mut ctx = borrow_accounts(1000, 0, 2, stats(1, u64::MAX / 100));
    assert_eq!(borrow_at(&mut ctx, 100, Some(NOW)), Err(LendingError::ArithmeticError));
}

#[test]
fn borrow_with_a_negative_price_reads_it_unsigned() {
    let mut ctx = borrow_accounts(1, 0, -1, stats(1000, 0));
    assert!(borrow_at(&mut ctx, 100, Some(NOW)).is_ok());
    assert_eq!(ctx.user_debt_account.debt_amount, 105);
    let mut ctx = borrow_accounts(2, 0, -1, stats(1000, 0));
    assert_eq!(borrow_at(&mut ctx, 100, Some(NOW)), Err(LendingError::ArithmeticError));
}

#[test]
fn liquidation_of_part_of_an_unsafe_position() {
    let mut ctx = liquidate_accounts(100, 100, 1);
    let done = liquidate_at(&mut ctx, 50, Some(NOW));
    assert_eq!(
        done,
        Ok(Liquidation {
            event: PositionLiquidated { borrower: key(1), liquidator: key(2), swapped_amount: 50 },
            liquidation_bonus: 0,
        })
    );
    assert_eq!(ctx.borrower_debt_account.debt_amount, 50);
    assert_eq!(ctx.borrower_collateral_account.collateral_amount, 50);
}

#[test]
fn liquidation_of_a_safe_position_is_rejected() {
    let mut ctx = liquidate_accounts(20_000, 100, 1);
    let before = ctx;
    assert_eq!(liquidate_at(&mut ctx, 50, Some(NOW)), Err(LendingError::PositionStillSafe));
    assert_eq!(ctx, before);
    let mut ctx = liquidate_accounts(100, 1, 400);
    let before = ctx;
    assert_eq!(liquidate_at(&mut ctx, 1, Some(NOW)), Err(LendingError::PositionStillSafe));
    assert_eq!(ctx, before);
}

#[test]
fn liquidation_just_below_the_threshold_goes_through() {
    let mut ctx = liquidate_accounts(19_999, 100, 1);
    assert!(liquidate_at(&mut ctx, 50, Some(NOW)).is_ok());
    assert_eq!(ctx.borrower_debt_account.debt_amount, 50);
    assert_eq!(ctx.borrower_collateral_account.collateral_amount, 19_949);
}

#[test]
fn liquidation_of_a_position_without_debt_is_rejected() {
    let mut ctx = liquidate_accounts(0, 0, 1);
    let before = ctx;
    assert_eq!(liquidate_at(&mut ctx, 50, Some(NOW)), Err(LendingError::PositionStillSafe));
    assert_eq!(ctx, before);
    let mut ctx = liquidate_accounts(100, 0, 0);
    assert_eq!(liquidate_at(&mut ctx, 0, Some(NOW)), Err(LendingError::PositionStillSafe));
}

#[test]
fn liquidation_is_capped_by_the_debt() {
    let mut ctx = liquidate_accounts(150, 100, 1);
    let done = liquidate_at(&mut ctx, 500, Some(NOW)).unwrap();
    assert_eq!(done.event.swapped_amount, 100);
    assert_eq!(done.liquidation_bonus, 1);
    assert_eq!(ctx.borrower_debt_account.debt_amount, 0);
    assert_eq!(ctx.borrower_collateral_account.collateral_amount, 50);
}

#[test]
fn liquidation_bonus_is_a_hundredth_rounded_down() {
    let mut ctx = liquidate_accounts(100_000, 50_000, 1);
    assert_eq!(liquidate_at(&mut ctx, 99, Some(NOW)).unwrap().liquidation_bonus, 0);
    assert_eq!(liquidate_at(&mut ctx, 100, Some(NOW)).unwrap().liquidation_bonus, 1);
    assert_eq!(liquidate_at(&mut ctx, 12_345, Some(NOW)).unwrap().liquidation_bonus, 123);
    assert_eq!(ctx.borrower_debt_account.debt_amount, 50_000 - 99 - 100 - 12_345);
    assert_eq!(ctx.borrower_collateral_account.collateral_amount, 100_000 - 99 - 100 - 12_345);
}

#[test]
fn liquidation_of_nothing_changes_nothing() {
    let mut ctx = liquidate_accounts(100, 100, 1);
    let before = ctx;
    let done = liquidate_at(&mut ctx, 0, Some(NOW)).unwrap();
    assert_eq!(done.event.swapped_amount, 0);
    assert_eq!(done.liquidation_bonus, 0);
    assert_eq!(ctx, before);
}

#[test]
fn liquidation_beyond_the_collateral_is_rejected() {
    let mut ctx = liquidate_accounts(10, 100, 1);
    let before = ctx;
    assert_eq!(liquidate_at(&mut ctx, 50, Some(NOW)), Err(LendingError::ArithmeticError));
    assert_eq!(ctx, before);
    assert!(liquidate_at(&mut ctx, 10, Some(NOW)).is_ok());
    assert_eq!(ctx.borrower_collateral_account.collateral_amount, 0);
    assert_eq!(ctx.borrower_debt_account.debt_amount, 90);
}

#[test]
fn liquidation_with_values_out_of_range_is_rejected() {
    let mut ctx = liquidate_accounts(u64::MAX, 100, 2);
    let before = ctx;
    assert_eq!(liquidate_at(&mut ctx, 50, Some(NOW)), Err(LendingError::ArithmeticError));
    assert_eq!(ctx, before);
    let mut ctx = liquidate_accounts(u64::MAX, 0, 2);
    assert_eq!(liquidate_at(&mut ctx, 50, Some(NOW)), Err(LendingError::ArithmeticError));
    let mut ctx = liquidate_accounts(100, u64::MAX / 200 + 1, 1);
    let before = ctx;
    assert_eq!(liquidate_at(&mut ctx, 50, Some(NOW)), Err(LendingError::ArithmeticError));
    assert_eq!(ctx, before);
    let mut ctx = liquidate_accounts(100, u64::MAX / 200, 1);
    assert!(liquidate_at(&mut ctx, 50, Some(NOW)).is_ok());
}

#[test]
fn liquidation_is_rejected_while_paused() {
    let mut ctx = liquidate_accounts(100, 100, 1);
    ctx.global_state = paused();
    let before = ctx;
    assert_eq!(liquidate_at(&mut ctx, 50, Some(NOW)), Err(LendingError::ProtocolPaused));
    assert_eq!(ctx, before);
}

#[test]
fn liquidation_without_a_fresh_price_is_rejected() {
    let mut ctx = liquidate_accounts(100, 100, 1);
    ctx.price_feed = stale(1);
    let before = ctx;
    assert_eq!(liquidate_at(&mut ctx, 50, Some(NOW)), Err(LendingError::InvalidOracle));
    assert_eq!(ctx, before);
    ctx.price_feed = publishing(1);
    assert_eq!(liquidate_at(&mut ctx, 50, None), Err(LendingError::InvalidOracle));
}

#[test]
fn liquidation_uses_the_fallback_feed_when_the_primary_is_unreadable() {
    let mut ctx = liquidate_accounts(100, 100, 1);
    ctx.price_feed = unreadable();
    ctx.switchboard_feed = publishing(1);
    assert!(liquidate_at(&mut ctx, 50, Some(NOW)).is_ok());
    assert_eq!(ctx.borrower_debt_account.debt_amount, 50);
    let mut ctx = liquidate_accounts(100, 100, 1);
    ctx.price_feed = unreadable();
    ctx.switchboard_feed = publishing(200);
    assert_eq!(liquidate_at(&mut ctx, 50, Some(NOW)), Err(LendingError::PositionStillSafe));
}

#[test]
fn operations_by_the_cluster_clock_act_as_at_some_reading() {
    let mut ctx = borrow_accounts(1000, 0, 2, stats(1000, 0));
    let before = ctx;
    match borrow(&mut ctx, 900) {
        Ok(event) => {
            assert_eq!(event, AssetBorrowed { user: key(1), borrow_amount: 900 });
            assert_eq!(ctx.user_debt_account.debt_amount, 945);
        },
        Err(e) => {
            assert_eq!(e, LendingError::InvalidOracle);
            assert_eq!(ctx, before);
        },
    }
    let mut ctx = liquidate_accounts(100, 100, 1);
    let before = ctx;
    match liquidate(&mut ctx, 50) {
        Ok(done) => {
            assert_eq!(done.event.swapped_amount, 50);
            assert_eq!(ctx.borrower_debt_account.debt_amount, 50);
        },
        Err(e) => {
            assert_eq!(e, LendingError::InvalidOracle);
            assert_eq!(ctx, before);
        },
    }
}

#[test]
fn operations_by_the_cluster_clock_are_rejected_while_paused() {
    let mut ctx = borrow_accounts(1000, 0, 2, stats(1000, 0));
    ctx.global_state = paused();
    let before = ctx;
    assert_eq!(borrow(&mut ctx, 900), Err(LendingError::ProtocolPaused));
    assert_eq!(ctx, before);
    let mut ctx = liquidate_accounts(100, 100, 1);
    ctx.global_state = paused();
    let before = ctx;
    assert_eq!(liquidate(&mut ctx, 50), Err(LendingError::ProtocolPaused));
    assert_eq!(ctx, before);
}

#[test]
fn totals_follow_the_balances_through_deposits_and_small_loans() {
    let mut pool = stats(0, 0);
    let mut collateral = [0u64; 3];
    let mut debt = [0u64; 3];
    let steps: [(usize, u64, bool); 8] = [
        (0, 1000, true),
        (1, 500, true),
        (0, 19, false),
        (2, 7, true),
        (1, 10, false),
        (1, 0, true),
        (2, 3, false),
        (0, 250, true),
    ];
    for (user, amount, is_deposit) in steps {
        if is_deposit {
            let mut ctx = deposit_accounts(collateral[user], pool);
            assert!(deposit_collateral(&mut ctx, amount).is_ok());
            collateral[user] = ctx.user_collateral_account.collateral_amount;
            pool = ctx.protocol_stats;
        } else {
            let mut ctx = borrow_accounts(collateral[user], debt[user], 10, pool);
            assert!(borrow_at(&mut ctx, amount, Some(NOW)).is_ok());
            collateral[user] = ctx.user_collateral_account.collateral_amount;
            debt[user] = ctx.user_debt_account.debt_amount;
            pool = ctx.protocol_stats;
        }
        assert_eq!(pool.total_collateral, collateral.iter().sum::<u64>());
        assert_eq!(pool.total_borrowed, debt.iter().sum::<u64>());
    }
    assert_eq!(pool, stats(1757, 32));
}

#[test]
fn interest_and_seizure_move_the_balances_away_from_the_totals() {
    let mut pool = stats(0, 0);
    let mut ctx = deposit_accounts(0, pool);
    assert!(deposit_collateral(&mut ctx, 1000).is_ok());
    pool = ctx.protocol_stats;
    let mut ctx = borrow_accounts(1000, 0, 2, pool);
    assert!(borrow_at(&mut ctx, 900, Some(NOW)).is_ok());
    pool = ctx.protocol_stats;
    assert_eq!(pool.total_borrowed, 900);
    assert_eq!(ctx.user_debt_account.debt_amount, 945);
    let mut ctx = liquidate_accounts(1000, 945, 2);
    assert!(liquidate_at(&mut ctx, 45, Some(NOW)).is_ok());
    assert_eq!(ctx.borrower_debt_account.debt_amount, 900);
    assert_eq!(ctx.borrower_collateral_account.collateral_amount, 955);
    assert_eq!(pool, stats(1000, 900));
}
