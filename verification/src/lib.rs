//! Risk and accounting engine of a collateralized lending pool: users deposit
//! liquid-staking tokens as collateral, borrow against them at a rate driven by
//! pool utilization, and unsafe positions are liquidated.
//!
//! Every operation is a function from the accounts it touches to their next
//! values and a notification. Token custody and account storage are left to the
//! caller.

pub mod engine;
pub mod errors;
pub mod events;
pub mod ledger;
pub mod oracle;
pub mod risk;
pub mod state;

pub use engine::{
    borrow, borrow_at, deposit_collateral, liquidate, liquidate_at, Borrow, DepositCollateral, Liquidate,
};
pub use errors::LendingError;
pub use events::{AssetBorrowed, CollateralDeposited, Liquidation, PositionLiquidated};
pub use oracle::{
    get_price, get_price_at, get_price_instruction, get_quote_at, FeedPrice, GetPrice, PriceOrigin,
    PriceQuote, PriceSource,
};
pub use risk::{calculate_health_factor, calculate_interest_rate};
pub use state::{CollateralAccount, DebtAccount, GlobalState, ProtocolStats};
