//! Bookkeeping for a single-investor custodial vault: share minting and
//! redemption, trading-pair configuration, and the checks that gate
//! strategy signals before a swap is relayed to an exchange program.

pub mod accounts;
pub mod address;
pub mod errors;
pub mod funds;
pub mod instruction;
pub mod orca_swap;
pub mod pairs;
pub mod shares;
pub mod state;
pub mod trading;

pub use address::Address;
pub use errors::{MyVaultError, OrcaSwapError};
pub use state::{
    Deposited, JupiterRouteData, SignalReceived, SignalType, Strategy, StrategyModel,
    TradeExecuted, TradingPair, Vault, VaultModel, Withdrawn, BASIS_POINTS,
};
