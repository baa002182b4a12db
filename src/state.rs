use vstd::prelude::*;

use crate::address::Address;

verus! {

/// Percentages are expressed in basis points: 10000 stands for 100%.
pub const BASIS_POINTS: u64 = 10000;

/// Seconds a strategy signal stays valid when a vault is first set up.
pub const DEFAULT_SIGNAL_TIMEOUT: u64 = 900;

/// Direction of a strategy signal.
#[derive(Clone, Copy, Debug, PartialEq, Eq, Structural)]
pub enum SignalType {
    Buy,
    Sell,
}

/// A token the strategy may trade against the vault's base token.
#[derive(Clone, Copy, Debug)]
pub struct TradingPair {
    pub token_mint: Address,
    pub is_active: bool,
    /// Largest share of the base balance, in basis points, one buy may move.
    pub max_allocation: u64,
    pub min_exit_amount: u64,
}

/// Route description handed to the aggregator with a trade.
#[derive(Clone, Debug)]
pub struct JupiterRouteData {
    pub token_mint: Address,
    pub jupiter_user_account: Address,
    pub route_data: Vec<u8>,
}

/// The vault account: which base token it holds and who may operate it.
#[derive(Clone, Debug)]
pub struct Vault {
    pub base_token_mint: Address,
    pub base_token_account: Address,
    pub authority: Address,
    pub strategy: Address,
    pub name: String,
    pub investor: Address,
    pub bump: u8,
}

/// What a vault account holds, as values.
pub struct VaultModel {
    pub base_token_mint: Seq<u8>,
    pub base_token_account: Seq<u8>,
    pub authority: Seq<u8>,
    pub strategy: Seq<u8>,
    pub name: Seq<char>,
    pub investor: Seq<u8>,
    pub bump: u8,
}

impl View for Vault {
    type V = VaultModel;

    open spec fn view(&self) -> VaultModel {
        VaultModel {
            base_token_mint: self.base_token_mint@,
            base_token_account: self.base_token_account@,
            authority: self.authority@,
            strategy: self.strategy@,
            name: self.name@,
            investor: self.investor@,
            bump: self.bump,
        }
    }
}

/// The strategy account: signal settings and the configured trading pairs.
#[derive(Clone, Debug)]
pub struct Strategy {
    pub authority: Address,
    pub vault: Address,
    pub strategy_enabled: bool,
    pub signal_timeout: u64,
    pub last_signal_timestamp: u64,
    pub trading_pairs: Vec<TradingPair>,
    pub bump: u8,
}

/// What a strategy account holds, as values.
pub struct StrategyModel {
    pub authority: Seq<u8>,
    pub vault: Seq<u8>,
    pub strategy_enabled: bool,
    pub signal_timeout: u64,
    pub last_signal_timestamp: u64,
    pub trading_pairs: Seq<TradingPair>,
    pub bump: u8,
}

impl View for Strategy {
    type V = StrategyModel;

    open spec fn view(&self) -> StrategyModel {
        StrategyModel {
            authority: self.authority@,
            vault: self.vault@,
            strategy_enabled: self.strategy_enabled,
            signal_timeout: self.signal_timeout,
            last_signal_timestamp: self.last_signal_timestamp,
            trading_pairs: self.trading_pairs@,
            bump: self.bump,
        }
    }
}

impl StrategyModel {
    /// Every pair's allocation cap is at most 100%, and no mint is listed twice.
    pub open spec fn wf(self) -> bool {
        &&& forall|i: int|
            0 <= i < self.trading_pairs.len() ==> #[trigger] self.trading_pairs[i].max_allocation
                <= BASIS_POINTS
        &&& forall|i: int, j: int|
            0 <= i < j < self.trading_pairs.len() ==> #[trigger] self.trading_pairs[i].token_mint@
                != #[trigger] self.trading_pairs[j].token_mint@
    }
}

/// Event: a signal passed its checks.
#[derive(Clone, Copy, Debug)]
pub struct SignalReceived {
    pub signal_type: SignalType,
    pub token_mint: Address,
    pub timestamp: u64,
}

/// Event: tokens were moved to the aggregator for a swap.
#[derive(Clone, Copy, Debug)]
pub struct TradeExecuted {
    pub signal_type: SignalType,
    pub token_mint: Address,
    pub amount: u64,
    pub result: u64,
}

/// Event: base tokens came in and shares were minted.
#[derive(Clone, Copy, Debug)]
pub struct Deposited {
    pub user: Address,
    pub amount: u64,
    pub shares: u64,
}

/// Event: shares were burned and base tokens paid out.
#[derive(Clone, Copy, Debug)]
pub struct Withdrawn {
    pub user: Address,
    pub amount: u64,
    pub shares: u64,
}

} // verus!
