use vstd::prelude::*;

verus! {

/// Why an operation was rejected. A rejected operation changes no balance.
#[derive(Clone, Copy, Debug, PartialEq, Eq, Structural)]
pub enum LendingError {
    /// The collateral does not cover the requested loan.
    InsufficientCollateral,
    /// The position is healthy and cannot be liquidated.
    PositionStillSafe,
    /// The administrator has paused the protocol.
    ProtocolPaused,
    /// No fresh price could be obtained from either feed.
    InvalidOracle,
    /// A balance computation left the 64-bit range or divided by zero.
    ArithmeticError,
}

impl LendingError {
    /// The text shown to a user for this error.
    pub open spec fn message_text(self) -> Seq<char> {
        match self {
            LendingError::InsufficientCollateral => "Insufficient collateral to borrow the requested amount."@,
            LendingError::PositionStillSafe => "Position is still safe, cannot liquidate."@,
            LendingError::ProtocolPaused => "The protocol is currently paused."@,
            LendingError::InvalidOracle => "Invalid oracle price feed"@,
            LendingError::ArithmeticError => "Arithmetic overflow, underflow or division by zero."@,
        }
    }

    /// Returns the text shown to a user for this error.
    pub fn message(&self) -> (text: &'static str)
        ensures
            text@ == self.message_text(),
    {
        match self {
            LendingError::InsufficientCollateral => "Insufficient collateral to borrow the requested amount.",
            LendingError::PositionStillSafe => "Position is still safe, cannot liquidate.",
            LendingError::ProtocolPaused => "The protocol is currently paused.",
            LendingError::InvalidOracle => "Invalid oracle price feed",
            LendingError::ArithmeticError => "Arithmetic overflow, underflow or division by zero.",
        }
    }
}

} // verus!
