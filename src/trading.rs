use vstd::prelude::*;

use crate::accounts::{ExecuteTrade, SetTradingPair, UpdateStrategy};
use crate::errors::MyVaultError;
use crate::pairs::{first_index, lemma_first_index, lists_mint, position_of, trades_mint};
use crate::shares::{bps_of, bps_share_wide};
use crate::state::{
    SignalReceived, SignalType, Strategy, StrategyModel, TradeExecuted, TradingPair, BASIS_POINTS,
};

verus! {

/// The refusal `set_trading_pair` gives, if any.
pub open spec fn set_pair_error(s: StrategyModel, ctx: SetTradingPair, max_allocation: u64) -> Option<
    MyVaultError,
> {
    if max_allocation > BASIS_POINTS {
        Some(MyVaultError::InvalidAllocation)
    } else if s.authority != ctx.authority@ {
        Some(MyVaultError::Unauthorized)
    } else {
        None
    }
}

/// `pair` replaces the first pair listed for its mint, or is appended when
/// the mint is not listed.
pub open spec fn pairs_after_set(pairs: Seq<TradingPair>, pair: TradingPair) -> Seq<TradingPair> {
    let k = first_index(pairs, lists_mint(pair.token_mint@));
    if k < pairs.len() {
        pairs.update(k, pair)
    } else {
        pairs.push(pair)
    }
}

/// Lists `ctx.token_mint` as an active pair with the given limits, or
/// re-activates and updates it when it is already listed.
pub fn set_trading_pair(
    strategy: &mut Strategy,
    ctx: &SetTradingPair,
    max_allocation: u64,
    min_exit_amount: u64,
) -> (r: Result<(), MyVaultError>)
    ensures
        match set_pair_error(old(strategy)@, *ctx, max_allocation) {
            Some(e) => r == Err::<(), MyVaultError>(e) && final(strategy)@ == old(strategy)@,
            None => r is Ok && final(strategy)@ == (StrategyModel {
                trading_pairs: pairs_after_set(
                    old(strategy)@.trading_pairs,
                    TradingPair {
                        token_mint: ctx.token_mint,
                        is_active: true,
                        max_allocation,
                        min_exit_amount,
                    },
                ),
                ..old(strategy)@
            }),
        },
        old(strategy)@.wf() ==> final(strategy)@.wf(),
{
    if max_allocation > BASIS_POINTS {
        return Err(MyVaultError::InvalidAllocation);
    }
    if !(strategy.authority == ctx.authority) {
        return Err(MyVaultError::Unauthorized);
    }
    let pair = TradingPair {
        token_mint: ctx.token_mint,
        is_active: true,
        max_allocation,
        min_exit_amount,
    };
    let ghost pairs = strategy.trading_pairs@;
    let k = position_of(&strategy.trading_pairs, &ctx.token_mint, false);
    proof {
        lemma_first_index(pairs, lists_mint(ctx.token_mint@));
    }
    if k < strategy.trading_pairs.len() {
        strategy.trading_pairs.set(k, pair);
    } else {
        strategy.trading_pairs.push(pair);
    }
    proof {
        let s = strategy.trading_pairs@;
        assert(s =~= pairs_after_set(pairs, pair));
        if old(strategy)@.wf() {
            assert forall|i: int, j: int| 0 <= i < j < s.len() implies #[trigger] s[i].token_mint@
                != #[trigger] s[j].token_mint@ by {
                if j == k {
                    assert(!lists_mint(ctx.token_mint@)(pairs[i]));
                } else if i == k && k < pairs.len() {
                    assert(pairs[k as int].token_mint@ == ctx.token_mint@);
                    assert(pairs[i].token_mint@ != pairs[j].token_mint@);
                } else {
                    assert(pairs[i].token_mint@ != pairs[j].token_mint@);
                }
            }
        }
    }
    Ok(())
}

/// The refusal `disable_trading_pair` gives, if any.
pub open spec fn disable_pair_error(s: StrategyModel, ctx: SetTradingPair) -> Option<MyVaultError> {
    if s.authority != ctx.authority@ {
        Some(MyVaultError::Unauthorized)
    } else if first_index(s.trading_pairs, lists_mint(ctx.token_mint@)) >= s.trading_pairs.len() {
        Some(MyVaultError::TradingPairNotActive)
    } else {
        None
    }
}

/// Marks the first pair listed for `ctx.token_mint` inactive; its limits
/// are kept.
pub fn disable_trading_pair(strategy: &mut Strategy, ctx: &SetTradingPair) -> (r: Result<
    (),
    MyVaultError,
>)
    ensures
        match disable_pair_error(old(strategy)@, *ctx) {
            Some(e) => r == Err::<(), MyVaultError>(e) && final(strategy)@ == old(strategy)@,
            None => {
                let pairs = old(strategy)@.trading_pairs;
                let k = first_index(pairs, lists_mint(ctx.token_mint@));
                &&& r is Ok
                &&& final(strategy)@ == (StrategyModel {
                    trading_pairs: pairs.update(k, TradingPair { is_active: false, ..pairs[k] }),
                    ..old(strategy)@
                })
            },
        },
        old(strategy)@.wf() ==> final(strategy)@.wf(),
{
    if !(strategy.authority == ctx.authority) {
        return Err(MyVaultError::Unauthorized);
    }
    let ghost pairs = strategy.trading_pairs@;
    let k = position_of(&strategy.trading_pairs, &ctx.token_mint, false);
    proof {
        lemma_first_index(pairs, lists_mint(ctx.token_mint@));
    }
    if k >= strategy.trading_pairs.len() {
        return Err(MyVaultError::TradingPairNotActive);
    }
    let mut pair = strategy.trading_pairs[k];
    pair.is_active = false;
    strategy.trading_pairs.set(k, pair);
    proof {
        let s = strategy.trading_pairs@;
        assert(s =~= pairs.update(k as int, TradingPair { is_active: false, ..pairs[k as int] }));
        if old(strategy)@.wf() {
            assert forall|i: int, j: int| 0 <= i < j < s.len() implies #[trigger] s[i].token_mint@
                != #[trigger] s[j].token_mint@ by {
                assert(pairs[i].token_mint@ != pairs[j].token_mint@);
            }
        }
    }
    Ok(())
}

/// Turns the strategy on or off and sets how long a signal stays valid.
pub fn update_strategy_settings(
    strategy: &mut Strategy,
    ctx: &UpdateStrategy,
    strategy_enabled: bool,
    signal_timeout: u64,
) -> (r: Result<(), MyVaultError>)
    ensures
        old(strategy)@.authority != ctx.authority@ ==> r == Err::<(), MyVaultError>(
            MyVaultError::Unauthorized,
        ) && final(strategy)@ == old(strategy)@,
        old(strategy)@.authority == ctx.authority@ ==> r is Ok && final(strategy)@ == (
        StrategyModel { strategy_enabled, signal_timeout, ..old(strategy)@ }),
        old(strategy)@.wf() ==> final(strategy)@.wf(),
{
    if !(strategy.authority == ctx.authority) {
        return Err(MyVaultError::Unauthorized);
    }
    strategy.strategy_enabled = strategy_enabled;
    strategy.signal_timeout = signal_timeout;
    Ok(())
}

/// What an accepted signal leads to: the event that records it and, when
/// tokens are to move, the trade to relay to the aggregator. The trade's
/// `amount` is taken from the vault's base account for a buy and from its
/// token account for a sell.
#[derive(Clone, Copy, Debug)]
pub struct SignalOutcome {
    pub signal: SignalReceived,
    pub trade: Option<TradeExecuted>,
}

/// The refusal `execute_buy_signal` gives, if any.
pub open spec fn buy_signal_error(
    s: StrategyModel,
    ctx: ExecuteTrade,
    amount_to_swap: u64,
    max_allocation_pct: u64,
) -> Option<MyVaultError> {
    let k = first_index(s.trading_pairs, trades_mint(ctx.token_mint@));
    if !s.strategy_enabled {
        Some(MyVaultError::StrategyNotEnabled)
    } else if k >= s.trading_pairs.len() {
        Some(MyVaultError::TradingPairNotActive)
    } else if max_allocation_pct > s.trading_pairs[k].max_allocation {
        Some(MyVaultError::AllocationExceedsMaximum)
    } else if amount_to_swap > bps_of(
        ctx.vault_base_token_amount as nat,
        max_allocation_pct as nat,
    ) {
        Some(MyVaultError::SwapAmountExceedsAllocation)
    } else {
        None
    }
}

/// A buy signal for `ctx.token_mint`: checks that the strategy is on, the
/// pair is active and the amount stays within `max_allocation_pct` of the
/// base balance (itself within the pair's cap), then stamps the signal time
/// `now`. Tokens move only for a nonzero amount.
pub fn execute_buy_signal(
    strategy: &mut Strategy,
    ctx: &ExecuteTrade,
    amount_to_swap: u64,
    max_allocation_pct: u64,
    now: i64,
) -> (r: Result<SignalOutcome, MyVaultError>)
    ensures
        match buy_signal_error(old(strategy)@, *ctx, amount_to_swap, max_allocation_pct) {
            Some(e) => r == Err::<SignalOutcome, MyVaultError>(e) && final(strategy)@ == old(
                strategy,
            )@,
            None => {
                &&& r == Ok::<SignalOutcome, MyVaultError>(
                    SignalOutcome {
                        signal: SignalReceived {
                            signal_type: SignalType::Buy,
                            token_mint: ctx.token_mint,
                            timestamp: now as u64,
                        },
                        trade: if amount_to_swap == 0 {
                            None
                        } else {
                            Some(
                                TradeExecuted {
                                    signal_type: SignalType::Buy,
                                    token_mint: ctx.token_mint,
                                    amount: amount_to_swap,
                                    result: ctx.vault_token_account_amount,
                                },
                            )
                        },
                    },
                )
                &&& final(strategy)@ == (StrategyModel {
                    last_signal_timestamp: now as u64,
                    ..old(strategy)@
                })
            },
        },
        old(strategy)@.wf() ==> final(strategy)@.wf(),
{
    if !strategy.strategy_enabled {
        return Err(MyVaultError::StrategyNotEnabled);
    }
    let ghost pairs = strategy.trading_pairs@;
    let k = position_of(&strategy.trading_pairs, &ctx.token_mint, true);
    proof {
        lemma_first_index(pairs, trades_mint(ctx.token_mint@));
    }
    if k >= strategy.trading_pairs.len() {
        return Err(MyVaultError::TradingPairNotActive);
    }
    if max_allocation_pct > strategy.trading_pairs[k].max_allocation {
        return Err(MyVaultError::AllocationExceedsMaximum);
    }
    let max_allowed_amount = bps_share_wide(ctx.vault_base_token_amount, max_allocation_pct);
    if amount_to_swap as u128 > max_allowed_amount {
        return Err(MyVaultError::SwapAmountExceedsAllocation);
    }
    let timestamp = now as u64;
    strategy.last_signal_timestamp = timestamp;
    let signal = SignalReceived {
        signal_type: SignalType::Buy,
        token_mint: ctx.token_mint,
        timestamp,
    };
    if amount_to_swap == 0 {
        return Ok(SignalOutcome { signal, trade: None });
    }
    let trade = TradeExecuted {
        signal_type: SignalType::Buy,
        token_mint: ctx.token_mint,
        amount: amount_to_swap,
        result: ctx.vault_token_account_amount,
    };
    Ok(SignalOutcome { signal, trade: Some(trade) })
}

/// The refusal `execute_sell_signal` gives, if any.
pub open spec fn sell_signal_error(s: StrategyModel, ctx: ExecuteTrade) -> Option<MyVaultError> {
    if !s.strategy_enabled {
        Some(MyVaultError::StrategyNotEnabled)
    } else if first_index(s.trading_pairs, trades_mint(ctx.token_mint@)) >= s.trading_pairs.len() {
        Some(MyVaultError::TradingPairNotActive)
    } else {
        None
    }
}

/// How much a sell moves: everything held when the request is zero or
/// more than the balance, else the request.
pub open spec fn sell_amount(amount_to_sell: u64, token_balance: u64) -> u64 {
    if amount_to_sell == 0 || amount_to_sell > token_balance {
        token_balance
    } else {
        amount_to_sell
    }
}

/// A sell signal for `ctx.token_mint`: checks that the strategy is on and
/// the pair is active. With nothing held it does nothing more (`None`);
/// otherwise it stamps the signal time `now` and sells `sell_amount`.
pub fn execute_sell_signal(
    strategy: &mut Strategy,
    ctx: &ExecuteTrade,
    amount_to_sell: u64,
    now: i64,
) -> (r: Result<Option<SignalOutcome>, MyVaultError>)
    ensures
        match sell_signal_error(old(strategy)@, *ctx) {
            Some(e) => r == Err::<Option<SignalOutcome>, MyVaultError>(e) && final(strategy)@ == old(
                strategy,
            )@,
            None => if ctx.vault_token_account_amount == 0 {
                r == Ok::<Option<SignalOutcome>, MyVaultError>(None) && final(strategy)@ == old(
                    strategy,
                )@
            } else {
                &&& r == Ok::<Option<SignalOutcome>, MyVaultError>(
                    Some(
                        SignalOutcome {
                            signal: SignalReceived {
                                signal_type: SignalType::Sell,
                                token_mint: ctx.token_mint,
                                timestamp: now as u64,
                            },
                            trade: Some(
                                TradeExecuted {
                                    signal_type: SignalType::Sell,
                                    token_mint: ctx.token_mint,
                                    amount: sell_amount(
                                        amount_to_sell,
                                        ctx.vault_token_account_amount,
                                    ),
                                    result: ctx.vault_base_token_amount,
                                },
                            ),
                        },
                    ),
                )
                &&& final(strategy)@ == (StrategyModel {
                    last_signal_timestamp: now as u64,
                    ..old(strategy)@
                })
            },
        },
        old(strategy)@.wf() ==> final(strategy)@.wf(),
{
    if !strategy.strategy_enabled {
        return Err(MyVaultError::StrategyNotEnabled);
    }
    let ghost pairs = strategy.trading_pairs@;
    let k = position_of(&strategy.trading_pairs, &ctx.token_mint, true);
    proof {
        lemma_first_index(pairs, trades_mint(ctx.token_mint@));
    }
    if k >= strategy.trading_pairs.len() {
        return Err(MyVaultError::TradingPairNotActive);
    }
    let token_balance = ctx.vault_token_account_amount;
    if token_balance == 0 {
        return Ok(None);
    }
    let amount = if amount_to_sell == 0 || amount_to_sell > token_balance {
        token_balance
    } else {
        amount_to_sell
    };
    let timestamp = now as u64;
    strategy.last_signal_timestamp = timestamp;
    let signal = SignalReceived {
        signal_type: SignalType::Sell,
        token_mint: ctx.token_mint,
        timestamp,
    };
    let trade = TradeExecuted {
        signal_type: SignalType::Sell,
        token_mint: ctx.token_mint,
        amount,
        result: ctx.vault_base_token_amount,
    };
    Ok(Some(SignalOutcome { signal, trade: Some(trade) }))
}

} // verus!
