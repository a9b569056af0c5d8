use vstd::prelude::*;
use anchor_lang::prelude::Pubkey;

verus! {

/// Collateral was deposited: `amount` moves from the user into the collateral vault.
#[derive(Clone, Copy, Debug, PartialEq, Eq)]
pub struct CollateralDeposited {
    pub user: Pubkey,
    pub amount: u64,
}

/// A loan was granted: `borrow_amount` moves from the lending pool to the user.
#[derive(Clone, Copy, Debug, PartialEq, Eq)]
pub struct AssetBorrowed {
    pub user: Pubkey,
    pub borrow_amount: u64,
}

/// A position was liquidated: `swapped_amount` of collateral moves from the
/// collateral vault into the swap pool.
#[derive(Clone, Copy, Debug, PartialEq, Eq)]
pub struct PositionLiquidated {
    pub borrower: Pubkey,
    pub liquidator: Pubkey,
    pub swapped_amount: u64,
}

/// What a liquidation settles: the notification, and the bonus that moves
/// from the collateral vault to the liquidator.
#[derive(Clone, Copy, Debug, PartialEq, Eq)]
pub struct Liquidation {
    pub event: PositionLiquidated,
    pub liquidation_bonus: u64,
}

} // verus!
