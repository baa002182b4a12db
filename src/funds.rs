use vstd::prelude::*;

use crate::accounts::{Deposit, InitializeVault, UpdateInvestor, Withdraw};
use crate::address::Address;
use crate::errors::MyVaultError;
use crate::shares::{
    assets_for_shares, assets_to_withdraw, bps_of, bps_share, deposit_shares,
    shares_for_assets, shares_for_deposit, shares_to_burn,
};
use crate::state::{
    Deposited, Strategy, StrategyModel, Vault, VaultModel, Withdrawn, BASIS_POINTS,
    DEFAULT_SIGNAL_TIMEOUT,
};

verus! {

/// A fresh vault and its strategy: the strategy is off, has no pairs, no
/// signal yet, and the default signal timeout; no investor is set.
pub fn initialize_vault(ctx: &InitializeVault, name: String) -> (r: (Vault, Strategy))
    ensures
        r.0@ == (VaultModel {
            base_token_mint: ctx.base_token_mint@,
            base_token_account: ctx.vault_base_token@,
            authority: ctx.authority@,
            strategy: ctx.strategy@,
            name: name@,
            investor: Seq::new(32, |_i: int| 0u8),
            bump: ctx.vault_bump,
        }),
        r.1@ == (StrategyModel {
            authority: ctx.authority@,
            vault: ctx.vault@,
            strategy_enabled: false,
            signal_timeout: DEFAULT_SIGNAL_TIMEOUT,
            last_signal_timestamp: 0,
            trading_pairs: Seq::empty(),
            bump: ctx.strategy_bump,
        }),
        r.1@.wf(),
{
    let vault = Vault {
        base_token_mint: ctx.base_token_mint,
        base_token_account: ctx.vault_base_token,
        authority: ctx.authority,
        strategy: ctx.strategy,
        name,
        investor: Address::zero(),
        bump: ctx.vault_bump,
    };
    let strategy = Strategy {
        authority: ctx.authority,
        vault: ctx.vault,
        strategy_enabled: false,
        signal_timeout: DEFAULT_SIGNAL_TIMEOUT,
        last_signal_timestamp: 0,
        trading_pairs: Vec::new(),
        bump: ctx.strategy_bump,
    };
    (vault, strategy)
}

/// Names the one investor allowed to deposit and withdraw.
pub fn update_investor(vault: &mut Vault, ctx: &UpdateInvestor, new_investor: Address) -> (r:
    Result<(), MyVaultError>)
    ensures
        old(vault)@.authority != ctx.authority@ ==> r == Err::<(), MyVaultError>(
            MyVaultError::Unauthorized,
        ) && final(vault)@ == old(vault)@,
        old(vault)@.authority == ctx.authority@ ==> r is Ok && final(vault)@ == (VaultModel {
            investor: new_investor@,
            ..old(vault)@
        }),
{
    if !(vault.authority == ctx.authority) {
        return Err(MyVaultError::Unauthorized);
    }
    vault.investor = new_investor;
    Ok(())
}

/// The refusal `deposit` gives, if any: only the investor may deposit, and
/// while shares are out an empty vault cannot price new ones.
pub open spec fn deposit_error(vault: VaultModel, ctx: Deposit) -> Option<MyVaultError> {
    if vault.investor != ctx.authority@ {
        Some(MyVaultError::OnlyInvestorAllowed)
    } else if ctx.vault_shares_supply > 0 && ctx.vault_base_token_amount == 0 {
        Some(MyVaultError::InsufficientVaultBalance)
    } else {
        None
    }
}

/// A deposit of `amount` base tokens by the investor: the shares to mint,
/// one per token into an empty vault, else in proportion to the supply.
/// The share count must fit a token amount, which `shares_to_mint` tells a
/// caller beforehand.
pub fn deposit(vault: &Vault, ctx: &Deposit, amount: u64) -> (r: Result<Deposited, MyVaultError>)
    requires
        deposit_error(vault@, *ctx) is None ==> deposit_shares(
            amount as nat,
            ctx.vault_shares_supply as nat,
            ctx.vault_base_token_amount as nat,
        ) <= u64::MAX,
    ensures
        match deposit_error(vault@, *ctx) {
            Some(e) => r == Err::<Deposited, MyVaultError>(e),
            None => r == Ok::<Deposited, MyVaultError>(
                Deposited {
                    user: ctx.authority,
                    amount,
                    shares: deposit_shares(
                        amount as nat,
                        ctx.vault_shares_supply as nat,
                        ctx.vault_base_token_amount as nat,
                    ) as u64,
                },
            ),
        },
{
    if !(vault.investor == ctx.authority) {
        return Err(MyVaultError::OnlyInvestorAllowed);
    }
    if ctx.vault_shares_supply > 0 && ctx.vault_base_token_amount == 0 {
        return Err(MyVaultError::InsufficientVaultBalance);
    }
    let shares = shares_for_deposit(amount, ctx.vault_shares_supply, ctx.vault_base_token_amount);
    Ok(Deposited { user: ctx.authority, amount, shares })
}

/// The refusal `percentage_withdraw` gives, if any.
pub open spec fn percentage_withdraw_error(vault: VaultModel, ctx: Withdraw, percentage: u64) -> Option<
    MyVaultError,
> {
    if vault.investor != ctx.authority@ {
        Some(MyVaultError::OnlyInvestorAllowed)
    } else if percentage == 0 || percentage > BASIS_POINTS {
        Some(MyVaultError::InvalidPercentage)
    } else {
        None
    }
}

/// Redeems `percentage` (in basis points) of the investor's shares for base
/// tokens in proportion to the vault's balance. When that rounds to no
/// share at all, nothing happens (`None`).
pub fn percentage_withdraw(vault: &Vault, ctx: &Withdraw, percentage: u64) -> (r: Result<
    Option<Withdrawn>,
    MyVaultError,
>)
    requires
        ctx.wf(),
    ensures
        match percentage_withdraw_error(vault@, *ctx, percentage) {
            Some(e) => r == Err::<Option<Withdrawn>, MyVaultError>(e),
            None => {
                let shares = bps_of(ctx.user_shares_amount as nat, percentage as nat);
                r == Ok::<Option<Withdrawn>, MyVaultError>(
                    if shares == 0 {
                        None
                    } else {
                        Some(
                            Withdrawn {
                                user: ctx.authority,
                                amount: assets_for_shares(
                                    shares,
                                    ctx.vault_base_token_amount as nat,
                                    ctx.vault_shares_supply as nat,
                                ) as u64,
                                shares: shares as u64,
                            },
                        )
                    },
                )
            },
        },
{
    if !(vault.investor == ctx.authority) {
        return Err(MyVaultError::OnlyInvestorAllowed);
    }
    if percentage == 0 || percentage > BASIS_POINTS {
        return Err(MyVaultError::InvalidPercentage);
    }
    let shares_to_redeem = bps_share(ctx.user_shares_amount, percentage);
    if shares_to_redeem == 0 {
        return Ok(None);
    }
    let amount = assets_to_withdraw(
        shares_to_redeem,
        ctx.vault_base_token_amount,
        ctx.vault_shares_supply,
    );
    Ok(Some(Withdrawn { user: ctx.authority, amount, shares: shares_to_redeem }))
}

/// The refusal `partial_withdraw` gives, if any. Nothing leaves the vault
/// unless at least one share is burned for it.
pub open spec fn partial_withdraw_error(vault: VaultModel, ctx: Withdraw, amount: u64) -> Option<
    MyVaultError,
> {
    let shares = shares_for_assets(
        amount as nat,
        ctx.vault_shares_supply as nat,
        ctx.vault_base_token_amount as nat,
    );
    if vault.investor != ctx.authority@ {
        Some(MyVaultError::OnlyInvestorAllowed)
    } else if amount == 0 {
        Some(MyVaultError::InvalidWithdrawAmount)
    } else if ctx.vault_base_token_amount == 0 {
        Some(MyVaultError::InsufficientVaultBalance)
    } else if shares == 0 || shares > ctx.user_shares_amount {
        Some(MyVaultError::InsufficientShares)
    } else if amount > ctx.vault_base_token_amount {
        Some(MyVaultError::InsufficientVaultBalance)
    } else {
        None
    }
}

/// Takes exactly `amount` base tokens out for the investor, burning the
/// shares they are worth (rounded down, and never none).
pub fn partial_withdraw(vault: &Vault, ctx: &Withdraw, amount: u64) -> (r: Result<
    Withdrawn,
    MyVaultError,
>)
    ensures
        match partial_withdraw_error(vault@, *ctx, amount) {
            Some(e) => r == Err::<Withdrawn, MyVaultError>(e),
            None => r == Ok::<Withdrawn, MyVaultError>(
                Withdrawn {
                    user: ctx.authority,
                    amount,
                    shares: shares_for_assets(
                        amount as nat,
                        ctx.vault_shares_supply as nat,
                        ctx.vault_base_token_amount as nat,
                    ) as u64,
                },
            ),
        },
        r is Ok ==> r->Ok_0.shares > 0 && r->Ok_0.shares <= ctx.user_shares_amount,
{
    if !(vault.investor == ctx.authority) {
        return Err(MyVaultError::OnlyInvestorAllowed);
    }
    if amount == 0 {
        return Err(MyVaultError::InvalidWithdrawAmount);
    }
    if ctx.vault_base_token_amount == 0 {
        return Err(MyVaultError::InsufficientVaultBalance);
    }
    let shares = shares_to_burn(amount, ctx.vault_shares_supply, ctx.vault_base_token_amount);
    if shares == 0 || shares > ctx.user_shares_amount as u128 {
        return Err(MyVaultError::InsufficientShares);
    }
    if amount > ctx.vault_base_token_amount {
        return Err(MyVaultError::InsufficientVaultBalance);
    }
    Ok(Withdrawn { user: ctx.authority, amount, shares: shares as u64 })
}

} // verus!
