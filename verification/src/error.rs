use vstd::prelude::*;

verus! {

/// Why an operation was refused. A refused operation changes nothing.
#[derive(Clone, Copy, Debug, PartialEq, Eq, Structural)]
pub enum ErrorCode {
    /// A checked addition, subtraction, multiplication or division had no
    /// result in the unsigned 64-bit domain.
    MathOverflow,
    /// The staked collateral does not cover the execution fee.
    InsufficientFundsForFee,
    /// The stake time lock has not yet elapsed.
    StakeTimeLock,
    /// The account holds enough margin, so it cannot be liquidated.
    MarginSufficient,
    /// The amount to liquidate exceeds the open position.
    InvalidLiquidationAmount,
    /// The caller is not the principal that the operation is reserved for.
    Unauthorized,
    /// The pool holds less liquidity than the hedge asks for.
    InsufficientLiquidity,
    /// A bounded list or registry is full.
    CapacityExceeded,
}

impl ErrorCode {
    /// The text that describes this error.
    pub open spec fn spec_message(self) -> Seq<char> {
        match self {
            ErrorCode::MathOverflow => "Math operation overflowed"@,
            ErrorCode::InsufficientFundsForFee => "Insufficient staked funds for execution fee"@,
            ErrorCode::StakeTimeLock => "Stake duration has not been met"@,
            ErrorCode::MarginSufficient => "Margin is sufficient; liquidation not allowed"@,
            ErrorCode::InvalidLiquidationAmount => "Invalid liquidation amount"@,
            ErrorCode::Unauthorized => "Unauthorized operation"@,
            ErrorCode::InsufficientLiquidity => "Insufficient liquidity for hedging"@,
            ErrorCode::CapacityExceeded => "Bounded collection is at capacity"@,
        }
    }

    /// Returns the text that describes this error.
    pub fn message(&self) -> (text: &'static str)
        ensures
            text@ == self.spec_message(),
    {
        match self {
            ErrorCode::MathOverflow => "Math operation overflowed",
            ErrorCode::InsufficientFundsForFee => "Insufficient staked funds for execution fee",
            ErrorCode::StakeTimeLock => "Stake duration has not been met",
            ErrorCode::MarginSufficient => "Margin is sufficient; liquidation not allowed",
            ErrorCode::InvalidLiquidationAmount => "Invalid liquidation amount",
            ErrorCode::Unauthorized => "Unauthorized operation",
            ErrorCode::InsufficientLiquidity => "Insufficient liquidity for hedging",
            ErrorCode::CapacityExceeded => "Bounded collection is at capacity",
        }
    }
}

} // verus!
