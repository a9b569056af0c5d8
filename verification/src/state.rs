use vstd::prelude::*;
use anchor_lang::prelude::Pubkey;

verus! {

/// `Pubkey` of the Solana SDK, as anchor-lang exports it: an account address.
/// The engine never looks inside one; it carries addresses from the accounts
/// of an operation into its notification.
#[verifier::external_type_specification]
#[verifier::external_body]
pub struct ExPubkey(Pubkey);

/// Collateral deposited by one user.
#[derive(Clone, Copy, Debug, PartialEq, Eq)]
pub struct CollateralAccount {
    pub collateral_amount: u64,
}

/// Debt owed by one user, interest included.
#[derive(Clone, Copy, Debug, PartialEq, Eq)]
pub struct DebtAccount {
    pub debt_amount: u64,
}

/// Protocol-wide switches, owned by the administrator.
#[derive(Clone, Copy, Debug, PartialEq, Eq)]
pub struct GlobalState {
    pub paused: bool,
    pub admin: Pubkey,
}

/// Protocol-wide totals, updated together with the positions they summarize.
#[derive(Clone, Copy, Debug, PartialEq, Eq)]
pub struct ProtocolStats {
    pub total_collateral: u64,
    pub total_borrowed: u64,
    pub total_liquidations: u64,
}

} // verus!
