//! Withdrawing deposited collateral.
//!
//! A withdrawal takes out everything that the participant has deposited of a
//! token and not set aside for a loan; there is no partial withdrawal. `withdraw`
//! checks the request and names the transfer that returns the tokens. Once the
//! host has carried it out, `withdraw_commit` clears the participant's entry
//! and takes the amount out of the pool's liquidity. The entry stays in the
//! ledger, at zero.

use vstd::prelude::*;
use anchor_lang::prelude::Pubkey;
use crate::accounts::{Transfer, Withdraw};
use crate::errors::WithdrawError;
use crate::keys::same_key;
use crate::ledger::{
    find_lender, find_liquidity, lenders_with, lent, lent_amount, liquidity, liquidity_amount,
    liquidity_with,
};
use crate::state::{LendingPool, PoolState};

verus! {

/// Why a withdrawal is refused, if it is: the first check that fails, in the
/// order in which `withdraw` makes them.
pub open spec fn withdraw_refusal(p: PoolState, ctx: Withdraw, token: Pubkey) -> Option<
    WithdrawError,
> {
    match lent(p.lenders, ctx.lender, token) {
        None => Some(WithdrawError::NoAssetsToWithdraw),
        Some(amount) => if amount == 0 {
            Some(WithdrawError::NoAssetsToWithdraw)
        } else if !p.has_liquidity(token, amount) {
            Some(WithdrawError::InsufficientPoolBalance)
        } else if ctx.pool_token_account.mint != token {
            Some(WithdrawError::InvalidCollateralToken)
        } else {
            None
        },
    }
}

/// The transfer of a withdrawal: from the pool's account into the lender's,
/// on the pool authority's word.
pub open spec fn withdrawal_transfer(ctx: Withdraw, amount: u64) -> Transfer {
    Transfer {
        from: ctx.pool_token_account.address,
        to: ctx.lender_token_account.address,
        authority: ctx.pool_authority,
        amount,
    }
}

/// The pool after `who` has withdrawn `token`: the entry that counts is at
/// zero, and the pool's liquidity of the token is lower by what the entry
/// held.
pub open spec fn withdrawn(p: PoolState, who: Pubkey, token: Pubkey) -> PoolState {
    match (lent(p.lenders, who, token), liquidity(p.total_lending_pool, token)) {
        (Some(amount), Some(balance)) => PoolState {
            lenders: lenders_with(p.lenders, who, token, 0),
            total_lending_pool: liquidity_with(
                p.total_lending_pool,
                token,
                (balance - amount) as u64,
            ),
            ..p
        },
        _ => p,
    }
}

/// First step of a withdrawal: checks it and names the transfer to carry out,
/// which moves all that the lender has deposited of the token.
///
/// Fails with `NoAssetsToWithdraw` if the lender has no entry for the token or
/// the entry is at zero, else with `InsufficientPoolBalance` if the pool
/// accounts for less than the entry holds, else with `InvalidCollateralToken`
/// if the pool's custody account holds another token.
pub fn withdraw(pool: &LendingPool, ctx: &Withdraw, collateral_token: Pubkey) -> (r: Result<
    Transfer,
    WithdrawError,
>)
    ensures
        r == match withdraw_refusal(pool@, *ctx, collateral_token) {
            Some(e) => Err::<Transfer, WithdrawError>(e),
            None => Ok::<Transfer, WithdrawError>(
                withdrawal_transfer(*ctx, lent(pool@.lenders, ctx.lender, collateral_token).unwrap()),
            ),
        },
{
    let amount_lent: u64 = match lent_amount(&pool.lenders, ctx.lender, collateral_token) {
        Some(amount) => amount,
        None => {
            return Err(WithdrawError::NoAssetsToWithdraw);
        },
    };
    if amount_lent == 0 {
        return Err(WithdrawError::NoAssetsToWithdraw);
    }
    let pool_balance: u64 = match liquidity_amount(&pool.total_lending_pool, collateral_token) {
        Some(balance) => balance,
        None => {
            return Err(WithdrawError::InsufficientPoolBalance);
        },
    };
    if amount_lent > pool_balance {
        return Err(WithdrawError::InsufficientPoolBalance);
    }
    if !same_key(&ctx.pool_token_account.mint, &collateral_token) {
        return Err(WithdrawError::InvalidCollateralToken);
    }
    Ok(
        Transfer {
            from: ctx.pool_token_account.address,
            to: ctx.lender_token_account.address,
            authority: ctx.pool_authority,
            amount: amount_lent,
        },
    )
}

/// Second step of a withdrawal, after the transfer that `withdraw` named has
/// been carried out: sets the lender's entry to zero and takes what it held
/// out of the pool's liquidity of the token.
pub fn withdraw_commit(pool: &mut LendingPool, ctx: &Withdraw, collateral_token: Pubkey)
    requires
        withdraw_refusal(old(pool)@, *ctx, collateral_token) is None,
    ensures
        final(pool)@ == withdrawn(old(pool)@, ctx.lender, collateral_token),
{
    let slot = find_lender(&pool.lenders, ctx.lender, collateral_token);
    let entry = find_liquidity(&pool.total_lending_pool, collateral_token);
    match (slot, entry) {
        (Some(i), Some(j)) => {
            let amount_lent: u64 = pool.lenders[i].2;
            let pool_balance: u64 = pool.total_lending_pool[j].1;
            pool.lenders.set(i, (ctx.lender, collateral_token, 0));
            pool.total_lending_pool.set(j, (collateral_token, pool_balance - amount_lent));
        },
        _ => {},
    }
}

} // verus!
