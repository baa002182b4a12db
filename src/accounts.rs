use vstd::prelude::*;

use crate::address::Address;

verus! {

/// Keys an `initialize_vault` call binds together.
#[derive(Clone, Copy, Debug)]
pub struct InitializeVault {
    pub authority: Address,
    pub vault: Address,
    pub strategy: Address,
    pub base_token_mint: Address,
    pub vault_base_token: Address,
    pub vault_bump: u8,
    pub strategy_bump: u8,
}

/// Signer and mint of a trading-pair change.
#[derive(Clone, Copy, Debug)]
pub struct SetTradingPair {
    pub authority: Address,
    pub token_mint: Address,
}

/// Signer of a strategy settings change.
#[derive(Clone, Copy, Debug)]
pub struct UpdateStrategy {
    pub authority: Address,
}

/// What a buy or sell signal reads: the traded mint and the vault's two
/// balances when the instruction starts.
#[derive(Clone, Copy, Debug)]
pub struct ExecuteTrade {
    pub token_mint: Address,
    pub vault_base_token_amount: u64,
    pub vault_token_account_amount: u64,
}

/// What a deposit reads: the signer, the vault's base balance and the
/// share supply.
#[derive(Clone, Copy, Debug)]
pub struct Deposit {
    pub authority: Address,
    pub vault_base_token_amount: u64,
    pub vault_shares_supply: u64,
}

/// What a withdrawal reads: the signer, the vault's base balance, the share
/// supply and the signer's own shares.
#[derive(Clone, Copy, Debug)]
pub struct Withdraw {
    pub authority: Address,
    pub vault_base_token_amount: u64,
    pub vault_shares_supply: u64,
    pub user_shares_amount: u64,
}

impl Withdraw {
    /// A share account never holds more than the shares in existence.
    pub open spec fn wf(self) -> bool {
        self.user_shares_amount <= self.vault_shares_supply
    }
}

/// Signer of an investor change.
#[derive(Clone, Copy, Debug)]
pub struct UpdateInvestor {
    pub authority: Address,
}

} // verus!
