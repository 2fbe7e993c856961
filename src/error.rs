use vstd::prelude::*;

verus! {

/// Every way an operation of the pool can fail.
#[derive(Debug, Clone, Copy, PartialEq, Eq, Structural)]
pub enum AmmError {
    /// A zero amount was requested.
    InvalidAmount,
    /// A fee above 10000 basis points.
    InvalidFee,
    /// A pool whose two reserve assets are the same.
    IdenticalAssets,
    /// A swap against a reserve that holds nothing.
    EmptyReserve,
    /// Deposit, withdraw or swap on a locked pool.
    PoolLocked,
    /// A derived amount violates the caller's bound.
    SlippageExceeded,
    /// A result does not fit the amount type.
    ArithmeticOverflow,
    /// Withdrawal sizing against a share supply of zero.
    DivisionByZero,
    /// Proportional deposit sizing asked of a pool with no shares.
    InvalidComputation,
    /// Lock or unlock by someone other than the pool's authority.
    Unauthorized,
    /// The ledger refused a transfer.
    TransferFailed,
    /// The ledger refused a mint.
    MintFailed,
    /// The ledger refused a burn.
    BurnFailed,
}

impl AmmError {
    /// A short human-readable message for the error.
    pub fn message(&self) -> (r: &'static str) {
        match self {
            AmmError::InvalidAmount => "invalid amount",
            AmmError::InvalidFee => "invalid fee",
            AmmError::IdenticalAssets => "the two assets must differ",
            AmmError::EmptyReserve => "a reserve of the pool is empty",
            AmmError::PoolLocked => "this pool is locked",
            AmmError::SlippageExceeded => "slippage exceeded",
            AmmError::ArithmeticOverflow => "arithmetic overflow",
            AmmError::DivisionByZero => "division by zero",
            AmmError::InvalidComputation => "invalid computation",
            AmmError::Unauthorized => "unauthorized",
            AmmError::TransferFailed => "transfer failed",
            AmmError::MintFailed => "mint failed",
            AmmError::BurnFailed => "burn failed",
        }
    }
}

} // verus!
