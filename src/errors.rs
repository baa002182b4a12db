use vstd::prelude::*;

verus! {

/// Why a vault instruction was refused.
#[derive(Clone, Copy, Debug, PartialEq, Eq, Structural)]
pub enum MyVaultError {
    Unauthorized,
    StrategyNotEnabled,
    TradingPairNotActive,
    AllocationExceedsMaximum,
    SwapAmountExceedsAllocation,
    InvalidAllocation,
    InvalidPercentage,
    InsufficientShares,
    InsufficientVaultBalance,
    OnlyInvestorAllowed,
    AccountNotFound,
    InvalidWithdrawAmount,
}

/// Why a whirlpool swap could not be prepared.
#[derive(Clone, Copy, Debug, PartialEq, Eq, Structural)]
pub enum OrcaSwapError {
    InvalidWhirlpool,
    InvalidTokenAccount,
    InsufficientLiquidity,
    /// The whirlpool program id is not a valid base58 address.
    InvalidProgramId,
}

} // verus!
