use solana_contract::accounts::{ExecuteTrade, InitializeVault, SetTradingPair, UpdateStrategy};
use solana_contract::funds::initialize_vault;
use solana_contract::trading::{
    disable_trading_pair, execute_buy_signal, execute_sell_signal, set_trading_pair,
    update_strategy_settings,
};
use solana_contract::pairs::position_of;
use solana_contract::state::DEFAULT_SIGNAL_TIMEOUT;
use solana_contract::{Address, MyVaultError, SignalType, Strategy, TradingPair};

fn key(b: u8) -> Address {
    Address::new([b; 32])
}

fn admin() -> Address {
    key(1)
}

fn fresh_strategy() -> Strategy {
    let ctx = InitializeVault {
        authority: admin(),
        vault: key(2),
        strategy: key(3),
        base_token_mint: key(4),
        vault_base_token: key(5),
        vault_bump: 254,
        strategy_bump: 253,
    };
    initialize_vault(&ctx, "fund".to_string()).1
}

fn pair_ctx(mint: u8) -> SetTradingPair {
    SetTradingPair { authority: admin(), token_mint: key(mint) }
}

fn enabled_with_pair(mint: u8, max_allocation: u64) -> Strategy {
    let mut s = fresh_strategy();
    set_trading_pair(&mut s, &pair_ctx(mint), max_allocation, 0).unwrap();
    update_strategy_settings(&mut s, &UpdateStrategy { authority: admin() }, true, 60).unwrap();
    s
}

fn trade(mint: u8, base: u64, token: u64) -> ExecuteTrade {
    ExecuteTrade {
        token_mint: key(mint),
        vault_base_token_amount: base,
        vault_token_account_amount: token,
    }
}

#[test]
fn new_strategy_is_off_and_empty() {
    let s = fresh_strategy();
    assert!(!s.strategy_enabled);
    assert_eq!(s.signal_timeout, DEFAULT_SIGNAL_TIMEOUT);
    assert_eq!(s.signal_timeout, 900);
    assert_eq!(s.last_signal_timestamp, 0);
    assert!(s.trading_pairs.is_empty());
    assert_eq!(s.bump, 253);
    assert_eq!(s.vault, key(2));
    assert_eq!(s.authority, admin());
}

#[test]
fn set_pair_adds_new_pair() {
    let mut s = fresh_strategy();
    assert_eq!(set_trading_pair(&mut s, &pair_ctx(9), 5000, 7), Ok(()));
    assert_eq!(s.trading_pairs.len(), 1);
    let p = s.trading_pairs[0];
    assert_eq!(p.token_mint, key(9));
    assert!(p.is_active);
    assert_eq!(p.max_allocation, 5000);
    assert_eq!(p.min_exit_amount, 7);
}

#[test]
fn set_pair_updates_existing_pair() {
    let mut s = fresh_strategy();
    set_trading_pair(&mut s, &pair_ctx(9), 5000, 7).unwrap();
    set_trading_pair(&mut s, &pair_ctx(8), 100, 1).unwrap();
    disable_trading_pair(&mut s, &pair_ctx(9)).unwrap();
    assert_eq!(set_trading_pair(&mut s, &pair_ctx(9), 10000, 3), Ok(()));
    assert_eq!(s.trading_pairs.len(), 2);
    let p = s.trading_pairs[0];
    assert_eq!(p.token_mint, key(9));
    assert!(p.is_active);
    assert_eq!(p.max_allocation, 10000);
    assert_eq!(p.min_exit_amount, 3);
    assert_eq!(s.trading_pairs[1].token_mint, key(8));
}

#[test]
fn set_pair_rejects_allocation_above_full() {
    let mut s = fresh_strategy();
    assert_eq!(
        set_trading_pair(&mut s, &pair_ctx(9), 10001, 0),
        Err(MyVaultError::InvalidAllocation)
    );
    assert!(s.trading_pairs.is_empty());
}

#[test]
fn allocation_checked_before_signer() {
    let mut s = fresh_strategy();
    let ctx = SetTradingPair { authority: key(77), token_mint: key(9) };
    assert_eq!(set_trading_pair(&mut s, &ctx, 20000, 0), Err(MyVaultError::InvalidAllocation));
    assert_eq!(set_trading_pair(&mut s, &ctx, 100, 0), Err(MyVaultError::Unauthorized));
    assert!(s.trading_pairs.is_empty());
}

#[test]
fn disable_pair() {
    let mut s = enabled_with_pair(9, 5000);
    assert_eq!(disable_trading_pair(&mut s, &pair_ctx(9)), Ok(()));
    let p = s.trading_pairs[0];
    assert!(!p.is_active);
    assert_eq!(p.max_allocation, 5000);
    // Disabling again still finds the listed pair.
    assert_eq!(disable_trading_pair(&mut s, &pair_ctx(9)), Ok(()));
}

#[test]
fn disable_unknown_pair() {
    let mut s = enabled_with_pair(9, 5000);
    assert_eq!(
        disable_trading_pair(&mut s, &pair_ctx(8)),
        Err(MyVaultError::TradingPairNotActive)
    );
    assert!(s.trading_pairs[0].is_active);
}

#[test]
fn disable_pair_wrong_signer() {
    let mut s = enabled_with_pair(9, 5000);
    let ctx = SetTradingPair { authority: key(77), token_mint: key(9) };
    assert_eq!(disable_trading_pair(&mut s, &ctx), Err(MyVaultError::Unauthorized));
    assert!(s.trading_pairs[0].is_active);
}

#[test]
fn update_settings() {
    let mut s = fresh_strategy();
    assert_eq!(
        update_strategy_settings(&mut s, &UpdateStrategy { authority: key(77) }, true, 5),
        Err(MyVaultError::Unauthorized)
    );
    assert!(!s.strategy_enabled);
    assert_eq!(s.signal_timeout, 900);
    assert_eq!(
        update_strategy_settings(&mut s, &UpdateStrategy { authority: admin() }, true, 5),
        Ok(())
    );
    assert!(s.strategy_enabled);
    assert_eq!(s.signal_timeout, 5);
}

#[test]
fn position_of_first_match() {
    let pairs = vec![
        TradingPair { token_mint: key(1), is_active: false, max_allocation: 1, min_exit_amount: 0 },
        TradingPair { token_mint: key(2), is_active: true, max_allocation: 2, min_exit_amount: 0 },
        TradingPair { token_mint: key(1), is_active: true, max_allocation: 3, min_exit_amount: 0 },
    ];
    assert_eq!(position_of(&pairs, &key(1), false), 0);
    assert_eq!(position_of(&pairs, &key(1), true), 2);
    assert_eq!(position_of(&pairs, &key(2), true), 1);
    assert_eq!(position_of(&pairs, &key(3), false), 3);
    assert_eq!(position_of(&Vec::new(), &key(3), false), 0);
}

#[test]
fn buy_within_allocation() {
    let mut s = enabled_with_pair(9, 5000);
    let out = execute_buy_signal(&mut s, &trade(9, 1000, 42), 250, 2500, 1_700_000_000).unwrap();
    assert_eq!(out.signal.signal_type, SignalType::Buy);
    assert_eq!(out.signal.token_mint, key(9));
    assert_eq!(out.signal.timestamp, 1_700_000_000);
    let t = out.trade.unwrap();
    assert_eq!(t.signal_type, SignalType::Buy);
    assert_eq!(t.token_mint, key(9));
    assert_eq!(t.amount, 250);
    assert_eq!(t.result, 42);
    assert_eq!(s.last_signal_timestamp, 1_700_000_000);
}

#[test]
fn buy_of_zero_moves_nothing() {
    let mut s = enabled_with_pair(9, 5000);
    let out = execute_buy_signal(&mut s, &trade(9, 1000, 0), 0, 0, 55).unwrap();
    assert!(out.trade.is_none());
    assert_eq!(out.signal.timestamp, 55);
    assert_eq!(s.last_signal_timestamp, 55);
}

#[test]
fn buy_negative_clock_wraps() {
    let mut s = enabled_with_pair(9, 5000);
    execute_buy_signal(&mut s, &trade(9, 1000, 0), 0, 0, -1).unwrap();
    assert_eq!(s.last_signal_timestamp, u64::MAX);
}

#[test]
fn buy_amount_above_allocation() {
    let mut s = enabled_with_pair(9, 5000);
    assert_eq!(
        execute_buy_signal(&mut s, &trade(9, 1000, 0), 251, 2500, 10).unwrap_err(),
        MyVaultError::SwapAmountExceedsAllocation
    );
    assert_eq!(s.last_signal_timestamp, 0);
}

#[test]
fn buy_percentage_above_pair_cap() {
    let mut s = enabled_with_pair(9, 5000);
    assert_eq!(
        execute_buy_signal(&mut s, &trade(9, 1000, 0), 1, 5001, 10).unwrap_err(),
        MyVaultError::AllocationExceedsMaximum
    );
}

#[test]
fn buy_needs_enabled_strategy() {
    let mut s = fresh_strategy();
    set_trading_pair(&mut s, &pair_ctx(9), 5000, 0).unwrap();
    assert_eq!(
        execute_buy_signal(&mut s, &trade(9, 1000, 0), 1, 100, 10).unwrap_err(),
        MyVaultError::StrategyNotEnabled
    );
    assert_eq!(s.last_signal_timestamp, 0);
}

#[test]
fn buy_needs_active_pair() {
    let mut s = enabled_with_pair(9, 5000);
    assert_eq!(
        execute_buy_signal(&mut s, &trade(8, 1000, 0), 1, 100, 10).unwrap_err(),
        MyVaultError::TradingPairNotActive
    );
    disable_trading_pair(&mut s, &pair_ctx(9)).unwrap();
    assert_eq!(
        execute_buy_signal(&mut s, &trade(9, 1000, 0), 1, 100, 10).unwrap_err(),
        MyVaultError::TradingPairNotActive
    );
}

#[test]
fn buy_whole_large_balance() {
    let mut s = enabled_with_pair(9, 10000);
    let out = execute_buy_signal(&mut s, &trade(9, u64::MAX, 0), u64::MAX, 10000, 1).unwrap();
    assert_eq!(out.trade.unwrap().amount, u64::MAX);
}

#[test]
fn sell_everything_when_zero_requested() {
    let mut s = enabled_with_pair(9, 5000);
    let out = execute_sell_signal(&mut s, &trade(9, 77, 300), 0, 99).unwrap().unwrap();
    assert_eq!(out.signal.signal_type, SignalType::Sell);
    assert_eq!(out.signal.timestamp, 99);
    let t = out.trade.unwrap();
    assert_eq!(t.signal_type, SignalType::Sell);
    assert_eq!(t.amount, 300);
    assert_eq!(t.result, 77);
    assert_eq!(s.last_signal_timestamp, 99);
}

#[test]
fn sell_capped_at_balance() {
    let mut s = enabled_with_pair(9, 5000);
    let out = execute_sell_signal(&mut s, &trade(9, 0, 300), 301, 1).unwrap().unwrap();
    assert_eq!(out.trade.unwrap().amount, 300);
}

#[test]
fn sell_requested_amount() {
    let mut s = enabled_with_pair(9, 5000);
    let out = execute_sell_signal(&mut s, &trade(9, 0, 300), 120, 1).unwrap().unwrap();
    assert_eq!(out.trade.unwrap().amount, 120);
}

#[test]
fn sell_with_nothing_held() {
    let mut s = enabled_with_pair(9, 5000);
    assert!(execute_sell_signal(&mut s, &trade(9, 10, 0), 5, 99).unwrap().is_none());
    assert_eq!(s.last_signal_timestamp, 0);
}

#[test]
fn sell_refusals() {
    let mut s = fresh_strategy();
    set_trading_pair(&mut s, &pair_ctx(9), 5000, 0).unwrap();
    assert_eq!(
        execute_sell_signal(&mut s, &trade(9, 0, 10), 5, 1).unwrap_err(),
        MyVaultError::StrategyNotEnabled
    );
    update_strategy_settings(&mut s, &UpdateStrategy { authority: admin() }, true, 60).unwrap();
    assert_eq!(
        execute_sell_signal(&mut s, &trade(8, 0, 10), 5, 1).unwrap_err(),
        MyVaultError::TradingPairNotActive
    );
}
