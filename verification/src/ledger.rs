use vstd::prelude::*;
use anchor_lang::prelude::Pubkey;
use crate::engine::{
    borrow_outcome, committed, deposit_outcome, liquidate_outcome, liquidation_amount, origination_interest,
    utilization, Borrow, DepositCollateral, Liquidate,
};
use crate::oracle::PriceSource;
use crate::risk::interest_rate;
use crate::state::{CollateralAccount, DebtAccount, GlobalState, ProtocolStats};

verus! {

/// The whole book of the protocol: every user's collateral and debt, and the
/// protocol-wide accounts. User `i` owns `collateral[i]` and `debt[i]`.
pub struct Ledger {
    pub owners: Seq<Pubkey>,
    pub collateral: Seq<u64>,
    pub debt: Seq<u64>,
    pub stats: ProtocolStats,
    pub global: GlobalState,
}

/// One operation on the book, with everything it reads from outside the book.
pub enum Operation {
    Deposit { user: int, amount: u64 },
    Borrow { user: int, borrow_amount: u64, price_feed: PriceSource, switchboard_feed: PriceSource, now: Option<i64> },
    Liquidate {
        liquidator: Pubkey,
        borrower: int,
        repay_amount: u64,
        price_feed: PriceSource,
        switchboard_feed: PriceSource,
        now: Option<i64>,
    },
}

/// Sum of a list of balances.
pub open spec fn sum_of(balances: Seq<u64>) -> int
    decreases balances.len(),
{
    if balances.len() == 0 {
        0
    } else {
        sum_of(balances.drop_last()) + balances.last()
    }
}

impl Operation {
    /// The user whose position the operation touches.
    pub open spec fn subject(self) -> int {
        match self {
            Operation::Deposit { user, .. } => user,
            Operation::Borrow { user, .. } => user,
            Operation::Liquidate { borrower, .. } => borrower,
        }
    }
}

impl Ledger {
    /// Every user has one collateral balance and one debt balance.
    pub open spec fn well_formed(self) -> bool {
        self.collateral.len() == self.owners.len() && self.debt.len() == self.owners.len()
    }

    /// Whether the operation names a user of this book.
    pub open spec fn admits(self, op: Operation) -> bool {
        0 <= op.subject() < self.owners.len()
    }

    /// The accounts a deposit by `user` works on.
    pub open spec fn deposit_accounts(self, user: int) -> DepositCollateral {
        DepositCollateral {
            user: self.owners[user],
            user_collateral_account: CollateralAccount { collateral_amount: self.collateral[user] },
            protocol_stats: self.stats,
            global_state: self.global,
        }
    }

    /// The accounts a loan to `user` works on.
    pub open spec fn borrow_accounts(self, user: int, price_feed: PriceSource, switchboard_feed: PriceSource) -> Borrow {
        Borrow {
            user: self.owners[user],
            user_debt_account: DebtAccount { debt_amount: self.debt[user] },
            user_collateral_account: CollateralAccount { collateral_amount: self.collateral[user] },
            switchboard_feed,
            price_feed,
            protocol_stats: self.stats,
            global_state: self.global,
        }
    }

    /// The accounts a liquidation of `borrower` works on.
    pub open spec fn liquidate_accounts(
        self,
        liquidator: Pubkey,
        borrower: int,
        price_feed: PriceSource,
        switchboard_feed: PriceSource,
    ) -> Liquidate {
        Liquidate {
            liquidator,
            borrower: self.owners[borrower],
            borrower_collateral_account: CollateralAccount { collateral_amount: self.collateral[borrower] },
            borrower_debt_account: DebtAccount { debt_amount: self.debt[borrower] },
            switchboard_feed,
            price_feed,
            global_state: self.global,
        }
    }

    /// The book after one operation: the accounts the operation works on are
    /// replaced by what the engine leaves in them.
    pub open spec fn apply(self, op: Operation) -> Ledger {
        match op {
            Operation::Deposit { user, amount } => {
                let before = self.deposit_accounts(user);
                let after = committed(before, deposit_outcome(before, amount));
                Ledger {
                    collateral: self.collateral.update(user, after.user_collateral_account.collateral_amount),
                    stats: after.protocol_stats,
                    ..self
                }
            },
            Operation::Borrow { user, borrow_amount, price_feed, switchboard_feed, now } => {
                let before = self.borrow_accounts(user, price_feed, switchboard_feed);
                let after = committed(before, borrow_outcome(before, borrow_amount, now));
                Ledger {
                    collateral: self.collateral.update(user, after.user_collateral_account.collateral_amount),
                    debt: self.debt.update(user, after.user_debt_account.debt_amount),
                    stats: after.protocol_stats,
                    ..self
                }
            },
            Operation::Liquidate { liquidator, borrower, repay_amount, price_feed, switchboard_feed, now } => {
                let before = self.liquidate_accounts(liquidator, borrower, price_feed, switchboard_feed);
                let after = committed(before, liquidate_outcome(before, repay_amount, now));
                Ledger {
                    collateral: self.collateral.update(borrower, after.borrower_collateral_account.collateral_amount),
                    debt: self.debt.update(borrower, after.borrower_debt_account.debt_amount),
                    ..self
                }
            },
        }
    }

    /// The book after a sequence of operations, applied first to last.
    pub open spec fn run(self, ops: Seq<Operation>) -> Ledger
        decreases ops.len(),
    {
        if ops.len() == 0 {
            self
        } else {
            self.run(ops.drop_last()).apply(ops.last())
        }
    }

    /// Interest that the operation adds to a user's debt and that the pool's
    /// total of loans does not count: the origination interest of a loan
    /// that goes through.
    pub open spec fn interest_charged(self, op: Operation) -> int {
        match op {
            Operation::Borrow { user, borrow_amount, price_feed, switchboard_feed, now } => {
                if borrow_outcome(self.borrow_accounts(user, price_feed, switchboard_feed), borrow_amount, now) is Ok {
                    origination_interest(borrow_amount, interest_rate(utilization(self.stats) as u64))
                } else {
                    0
                }
            },
            _ => 0,
        }
    }

    /// What the operation takes off a user's collateral and debt without
    /// touching the pool's totals: the amount of a liquidation that goes through.
    pub open spec fn seized(self, op: Operation) -> int {
        match op {
            Operation::Liquidate { liquidator, borrower, repay_amount, price_feed, switchboard_feed, now } => {
                if liquidate_outcome(
                    self.liquidate_accounts(liquidator, borrower, price_feed, switchboard_feed),
                    repay_amount,
                    now,
                ) is Ok {
                    liquidation_amount(repay_amount, self.debt[borrower]) as int
                } else {
                    0
                }
            },
            _ => 0,
        }
    }

    /// The pool's collateral total equals the sum of all collateral balances.
    pub open spec fn collateral_matches(self) -> bool {
        self.stats.total_collateral == sum_of(self.collateral)
    }

    /// The pool's total of loans equals the sum of all debt balances.
    pub open spec fn borrowed_matches(self) -> bool {
        self.stats.total_borrowed == sum_of(self.debt)
    }

    /// Both totals equal the sums of the balances they summarize.
    pub open spec fn balanced(self) -> bool {
        self.collateral_matches() && self.borrowed_matches()
    }

    /// Whether the operation leaves the totals in step with the balances: it
    /// charges no interest and seizes nothing. Deposits, rejected operations,
    /// loans too small to bear interest and liquidations of nothing do.
    pub open spec fn keeps_totals(self, op: Operation) -> bool {
        self.interest_charged(op) == 0 && self.seized(op) == 0
    }

    /// Whether every operation of the sequence names a user of this book.
    pub open spec fn admits_all(self, ops: Seq<Operation>) -> bool {
        forall|k: int| 0 <= k < ops.len() ==> self.admits(#[trigger] ops[k])
    }

    /// Whether every operation of the sequence, in the book it meets, leaves
    /// the totals in step with the balances.
    pub open spec fn all_keep_totals(self, ops: Seq<Operation>) -> bool {
        forall|k: int| 0 <= k < ops.len() ==> (#[trigger] self.run(ops.take(k))).keeps_totals(ops[k])
    }

    /// Whether the totals equal the sums of the balances after each
    /// operation of the sequence, and before the first.
    pub open spec fn balanced_throughout(self, ops: Seq<Operation>) -> bool {
        forall|k: int| 0 <= k <= ops.len() ==> (#[trigger] self.run(ops.take(k))).balanced()
    }

    /// How far the pool's collateral total lies above the sum of the
    /// collateral balances.
    pub open spec fn collateral_surplus(self) -> int {
        self.stats.total_collateral - sum_of(self.collateral)
    }

    /// How far the sum of the debt balances lies above the pool's total of loans.
    pub open spec fn debt_surplus(self) -> int {
        sum_of(self.debt) - self.stats.total_borrowed
    }
}

/// Replacing one balance changes the sum by the difference.
pub proof fn lemma_sum_of_update(balances: Seq<u64>, i: int, balance: u64)
    requires
        0 <= i < balances.len(),
    ensures
        sum_of(balances.update(i, balance)) == sum_of(balances) - balances[i] + balance,
    decreases balances.len(),
{
    let updated = balances.update(i, balance);
    if i == balances.len() - 1 {
        assert(updated.drop_last() =~= balances.drop_last());
    } else {
        lemma_sum_of_update(balances.drop_last(), i, balance);
        assert(updated.drop_last() =~= balances.drop_last().update(i, balance));
    }
}

/// What one operation does to the book as a whole. The book keeps its
/// users. The collateral total moves above the sum of the collateral
/// balances by what the operation seizes. The sum of the debt balances moves
/// above the total of loans by the interest the operation charges, less what
/// it seizes.
pub proof fn lemma_apply_accounting(ledger: Ledger, op: Operation)
    requires
        ledger.well_formed(),
        ledger.admits(op),
    ensures
        ledger.apply(op).well_formed(),
        ledger.apply(op).owners == ledger.owners,
        ledger.apply(op).global == ledger.global,
        ledger.apply(op).collateral_surplus() == ledger.collateral_surplus() + ledger.seized(op),
        ledger.apply(op).debt_surplus() == ledger.debt_surplus() + ledger.interest_charged(op) - ledger.seized(
            op,
        ),
        ledger.interest_charged(op) >= 0,
        ledger.seized(op) >= 0,
{
    let i = op.subject();
    let after = ledger.apply(op);
    lemma_sum_of_update(ledger.collateral, i, after.collateral[i]);
    lemma_sum_of_update(ledger.debt, i, after.debt[i]);
    match op {
        Operation::Deposit { .. } => {
            assert(after.debt =~= ledger.debt);
        },
        Operation::Borrow { borrow_amount, .. } => {
            assert(after.collateral =~= ledger.collateral);
            let rate = interest_rate(utilization(ledger.stats) as u64);
            assert(origination_interest(borrow_amount, rate) >= 0) by (nonlinear_arith);
        },
        Operation::Liquidate { .. } => {},
    }
}

/// One operation on a book whose totals equal the sums of its balances
/// leaves them equal exactly when it charges no interest and seizes nothing.
/// The collateral total stays equal exactly when nothing is seized.
pub proof fn lemma_apply_keeps_totals(ledger: Ledger, op: Operation)
    requires
        ledger.well_formed(),
        ledger.admits(op),
        ledger.balanced(),
    ensures
        ledger.apply(op).collateral_matches() <==> ledger.seized(op) == 0,
        ledger.apply(op).balanced() <==> ledger.keeps_totals(op),
{
    lemma_apply_accounting(ledger, op);
}

/// Running operations keeps the book's users, and neither surplus that
/// operations feed ever shrinks: the collateral total never falls toward the
/// sum of the collateral balances, and the two surpluses together never fall.
pub proof fn lemma_run_accounting(ledger: Ledger, ops: Seq<Operation>)
    requires
        ledger.well_formed(),
        ledger.admits_all(ops),
    ensures
        ledger.run(ops).well_formed(),
        ledger.run(ops).owners == ledger.owners,
        ledger.run(ops).global == ledger.global,
        ledger.run(ops).collateral_surplus() >= ledger.collateral_surplus(),
        ledger.run(ops).collateral_surplus() + ledger.run(ops).debt_surplus() >= ledger.collateral_surplus()
            + ledger.debt_surplus(),
    decreases ops.len(),
{
    if ops.len() > 0 {
        lemma_run_accounting(ledger, ops.drop_last());
        lemma_apply_accounting(ledger.run(ops.drop_last()), ops.last());
    }
}

/// Whatever is deposited, borrowed or liquidated, the pool's collateral
/// total never falls below the sum of the collateral balances once it
/// covered them.
pub proof fn lemma_run_collateral_covered(ledger: Ledger, ops: Seq<Operation>)
    requires
        ledger.well_formed(),
        ledger.admits_all(ops),
        ledger.stats.total_collateral >= sum_of(ledger.collateral),
    ensures
        ledger.run(ops).stats.total_collateral >= sum_of(ledger.run(ops).collateral),
{
    lemma_run_accounting(ledger, ops);
}

/// The conditions on a sequence carry over to the sequence without its last
/// operation.
proof fn lemma_front_inherits(ledger: Ledger, ops: Seq<Operation>)
    requires
        ops.len() > 0,
    ensures
        ledger.admits_all(ops) ==> ledger.admits_all(ops.drop_last()),
        ledger.all_keep_totals(ops) ==> ledger.all_keep_totals(ops.drop_last()),
        ledger.all_keep_totals(ops) ==> ledger.run(ops.drop_last()).keeps_totals(ops.last()),
        ledger.all_keep_totals(ops.drop_last()) && ledger.run(ops.drop_last()).keeps_totals(ops.last())
            ==> ledger.all_keep_totals(ops),
        ledger.balanced_throughout(ops.drop_last()) && ledger.run(ops).balanced() ==> ledger.balanced_throughout(
            ops,
        ),
{
    let front = ops.drop_last();
    let n = front.len() as int;
    assert(ops.take(n) =~= front);
    assert(ops.take(n + 1) =~= ops);
    assert forall|k: int| 0 <= k <= n implies #[trigger] front.take(k) == ops.take(k) by {
        assert(front.take(k) =~= ops.take(k));
    }
    if ledger.admits_all(ops) {
        assert forall|k: int| 0 <= k < front.len() implies ledger.admits(#[trigger] front[k]) by {
            assert(front[k] == ops[k]);
        }
    }
    if ledger.all_keep_totals(ops) {
        assert forall|k: int| 0 <= k < front.len() implies (#[trigger] ledger.run(front.take(k))).keeps_totals(
            front[k],
        ) by {
            assert(front.take(k) == ops.take(k));
            assert(ledger.run(ops.take(k)).keeps_totals(ops[k]));
        }
        assert(ledger.run(ops.take(n)).keeps_totals(ops[n]));
    }
    if ledger.all_keep_totals(front) && ledger.run(front).keeps_totals(ops.last()) {
        assert forall|k: int| 0 <= k < ops.len() implies (#[trigger] ledger.run(ops.take(k))).keeps_totals(
            ops[k],
        ) by {
            if k < n {
                assert(front.take(k) == ops.take(k));
                assert(ledger.run(front.take(k)).keeps_totals(front[k]));
            }
        }
    }
    if ledger.balanced_throughout(front) && ledger.run(ops).balanced() {
        assert forall|k: int| 0 <= k <= ops.len() implies (#[trigger] ledger.run(ops.take(k))).balanced() by {
            if k <= n {
                assert(front.take(k) == ops.take(k));
                assert(ledger.run(front.take(k)).balanced());
            }
        }
    }
}

/// In a book whose totals equal the sums of its balances, run any sequence
/// of deposits, loans and liquidations. The totals equal the sums after each
/// operation exactly when no loan in the sequence is charged interest and no
/// liquidation seizes anything; and once an operation has broken the
/// equality, no later one restores it.
pub proof fn lemma_run_keeps_totals(ledger: Ledger, ops: Seq<Operation>)
    requires
        ledger.well_formed(),
        ledger.balanced(),
        ledger.admits_all(ops),
    ensures
        ledger.all_keep_totals(ops) <==> ledger.balanced_throughout(ops),
        ledger.run(ops).balanced() <==> ledger.balanced_throughout(ops),
    decreases ops.len(),
{
    if ops.len() == 0 {
        assert forall|k: int| 0 <= k <= ops.len() implies (#[trigger] ledger.run(ops.take(k))).balanced() by {
            assert(ops.take(k) =~= ops);
        }
    } else {
        let front = ops.drop_last();
        let before = ledger.run(front);
        lemma_front_inherits(ledger, ops);
        lemma_run_keeps_totals(ledger, front);
        lemma_run_accounting(ledger, front);
        lemma_apply_accounting(before, ops.last());
        assert(ops.take(ops.len() as int) =~= ops);
        assert(front.take(front.len() as int) =~= front);
        if ledger.run(ops).balanced() {
            // Neither surplus shrinks, so a balanced end leaves no room for
            // a surplus before the last operation.
            assert(before.balanced());
            assert(before.keeps_totals(ops.last()));
        }
        if ledger.balanced_throughout(ops) {
            assert(ledger.run(ops.take(ops.len() as int)).balanced());
        }
    }
}

} // verus!
