use vstd::prelude::*;

use crate::state::BASIS_POINTS;

verus! {

/// Shares minted for a deposit of `amount`: one per base unit into an
/// empty vault, otherwise in proportion to the shares already out.
pub open spec fn deposit_shares(amount: nat, supply: nat, total_assets: nat) -> nat {
    if supply == 0 {
        amount
    } else {
        amount * supply / total_assets
    }
}

/// A deposit's share count is defined (no division by an empty balance
/// while shares are out) and fits a token amount.
pub open spec fn deposit_shares_defined(amount: nat, supply: nat, total_assets: nat) -> bool {
    &&& (supply == 0 || total_assets > 0)
    &&& deposit_shares(amount, supply, total_assets) <= u64::MAX
}

/// The part, in basis points, of `whole` that `bps` stands for, rounded down.
pub open spec fn bps_of(whole: nat, bps: nat) -> nat {
    whole * bps / BASIS_POINTS as nat
}

/// Base tokens that `shares` of `supply` shares are worth when the vault
/// holds `total_assets`, rounded down.
pub open spec fn assets_for_shares(shares: nat, total_assets: nat, supply: nat) -> nat {
    shares * total_assets / supply
}

/// Shares to burn for taking `amount` base tokens out, rounded down.
pub open spec fn shares_for_assets(amount: nat, supply: nat, total_assets: nat) -> nat {
    amount * supply / total_assets
}

/// `a * b / c` computed exactly in 128 bits.
fn mul_div(a: u64, b: u64, c: u64) -> (r: u128)
    requires
        c > 0,
    ensures
        r == (a as nat) * (b as nat) / (c as nat),
{
    proof {
        lemma_product_fits(a, b);
    }
    let p: u128 = (a as u128) * (b as u128);
    p / (c as u128)
}

/// Shares a deposit of `amount` mints, or `None` when the count is
/// undefined or does not fit a token amount.
pub fn shares_to_mint(amount: u64, share_supply: u64, total_assets: u64) -> (r: Option<u64>)
    ensures
        r == (if deposit_shares_defined(amount as nat, share_supply as nat, total_assets as nat) {
            Some(deposit_shares(amount as nat, share_supply as nat, total_assets as nat) as u64)
        } else {
            None
        }),
{
    if share_supply == 0 {
        Some(amount)
    } else if total_assets == 0 {
        None
    } else {
        let s = mul_div(amount, share_supply, total_assets);
        if s > u64::MAX as u128 {
            None
        } else {
            Some(s as u64)
        }
    }
}

/// `deposit_shares` where it is defined.
pub fn shares_for_deposit(amount: u64, share_supply: u64, total_assets: u64) -> (r: u64)
    requires
        deposit_shares_defined(amount as nat, share_supply as nat, total_assets as nat),
    ensures
        r == deposit_shares(amount as nat, share_supply as nat, total_assets as nat),
{
    if share_supply == 0 {
        amount
    } else {
        mul_div(amount, share_supply, total_assets) as u64
    }
}

/// `bps_of(whole, bps)`, which never exceeds `whole` when `bps` is at most 100%.
pub fn bps_share(whole: u64, bps: u64) -> (r: u64)
    requires
        bps <= BASIS_POINTS,
    ensures
        r == bps_of(whole as nat, bps as nat),
        r <= whole,
{
    let s = mul_div(whole, bps, BASIS_POINTS);
    proof {
        lemma_scaled_down(whole as nat, bps as nat, BASIS_POINTS as nat);
    }
    s as u64
}

/// `bps_of(whole, bps)`, for any `bps`, as a 128-bit value.
pub fn bps_share_wide(whole: u64, bps: u64) -> (r: u128)
    ensures
        r == bps_of(whole as nat, bps as nat),
{
    mul_div(whole, bps, BASIS_POINTS)
}

/// `assets_for_shares`, which never exceeds the vault's balance.
pub fn assets_to_withdraw(shares: u64, total_assets: u64, share_supply: u64) -> (r: u64)
    requires
        0 < share_supply,
        shares <= share_supply,
    ensures
        r == assets_for_shares(shares as nat, total_assets as nat, share_supply as nat),
        r <= total_assets,
{
    let s = mul_div(shares, total_assets, share_supply);
    proof {
        lemma_scaled_down(total_assets as nat, shares as nat, share_supply as nat);
        assert((shares as nat) * (total_assets as nat) == (total_assets as nat) * (shares as nat))
            by (nonlinear_arith);
    }
    s as u64
}

/// `shares_for_assets` as a 128-bit value.
pub fn shares_to_burn(amount: u64, share_supply: u64, total_assets: u64) -> (r: u128)
    requires
        total_assets > 0,
    ensures
        r == shares_for_assets(amount as nat, share_supply as nat, total_assets as nat),
{
    mul_div(amount, share_supply, total_assets)
}

/// Shares minted for a deposit into a vault that already has shares out
/// are worth no more than the deposit when redeemed right away: rounding
/// never lets a depositor take value from the other shareholders.
pub proof fn lemma_deposit_then_redeem(amount: nat, supply: nat, total_assets: nat)
    requires
        supply > 0,
        total_assets > 0,
    ensures
        ({
            let shares = deposit_shares(amount, supply, total_assets);
            assets_for_shares(shares, total_assets + amount, supply + shares) <= amount
        }),
{
    let shares = deposit_shares(amount, supply, total_assets);
    let d = supply + shares;
    assert(shares * total_assets <= amount * supply) by (nonlinear_arith)
        requires
            shares == amount * supply / total_assets,
            total_assets > 0,
    ;
    assert(shares * (total_assets + amount) <= amount * d) by (nonlinear_arith)
        requires
            shares * total_assets <= amount * supply,
            d == supply + shares,
    ;
    assert(amount * d / d == amount) by (nonlinear_arith)
        requires
            d > 0,
    ;
    vstd::arithmetic::div_mod::lemma_div_is_ordered(
        (shares * (total_assets + amount)) as int,
        (amount * d) as int,
        d as int,
    );
}

/// Two 64-bit values multiply within 128 bits.
proof fn lemma_product_fits(a: u64, b: u64)
    ensures
        (a as nat) * (b as nat) <= u128::MAX,
{
    assert((a as nat) * (b as nat) <= (u64::MAX as nat) * (u64::MAX as nat)) by (nonlinear_arith)
        requires
            a <= u64::MAX,
            b <= u64::MAX,
    ;
}

/// Scaling `x` by `n / d` with `n <= d` cannot make it larger.
proof fn lemma_scaled_down(x: nat, n: nat, d: nat)
    requires
        n <= d,
        d > 0,
    ensures
        x * n / d <= x,
{
    assert(x * n <= x * d) by (nonlinear_arith)
        requires
            n <= d,
    ;
    assert(x * d / d == x) by (nonlinear_arith)
        requires
            d > 0,
    ;
    vstd::arithmetic::div_mod::lemma_div_is_ordered((x * n) as int, (x * d) as int, d as int);
}

} // verus!
