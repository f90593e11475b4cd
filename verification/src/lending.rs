//! Depositing collateral.
//!
//! A deposit takes two steps. `lend` checks the request and names the transfer
//! that brings the tokens into the pool's custody. Once the host has carried
//! it out, `lend_commit` enters the deposit in the ledgers. A transfer that
//! fails ends the call with nothing entered.

use vstd::prelude::*;
use anchor_lang::prelude::Pubkey;
use crate::accounts::{Lend, Transfer};
use crate::errors::LendError;
use crate::ledger::{
    credit_lender, credit_liquidity, lenders_credited, lent, lent_amount, liquidity,
    liquidity_amount, liquidity_credited,
};
use crate::state::{LendingPool, PoolState};

verus! {

/// Why a deposit of `amount` of `token` is refused, if it is. The amount is
/// looked at first.
pub open spec fn lend_refusal(p: PoolState, token: Pubkey, amount: u64) -> Option<LendError> {
    if amount == 0 {
        Some(LendError::LendAmountMustBeGreaterThanZero)
    } else if !p.collateral_tokens.contains(token) {
        Some(LendError::InvalidCollateralToken)
    } else {
        None
    }
}

/// The transfer of a deposit: from the lender's account into the pool's, on
/// the lender's authority.
pub open spec fn deposit_transfer(ctx: Lend, amount: u64) -> Transfer {
    Transfer {
        from: ctx.lender_token_account.address,
        to: ctx.pool_token_account.address,
        authority: ctx.lender,
        amount,
    }
}

/// Whether both ledgers can take `amount` more for `who` and `token` without
/// leaving the range of their amounts.
pub open spec fn lend_in_range(p: PoolState, who: Pubkey, token: Pubkey, amount: u64) -> bool {
    &&& match lent(p.lenders, who, token) {
        Some(a) => a + amount <= u64::MAX,
        None => true,
    }
    &&& match liquidity(p.total_lending_pool, token) {
        Some(a) => a + amount <= u64::MAX,
        None => true,
    }
}

/// The pool after a deposit of `amount` of `token` by `who` was entered.
pub open spec fn lend_entered(p: PoolState, who: Pubkey, token: Pubkey, amount: u64) -> PoolState {
    PoolState {
        lenders: lenders_credited(p.lenders, who, token, amount),
        total_lending_pool: liquidity_credited(p.total_lending_pool, token, amount),
        ..p
    }
}

/// First step of a deposit: checks it and names the transfer to carry out.
///
/// Fails with `LendAmountMustBeGreaterThanZero` on a zero amount, else with
/// `InvalidCollateralToken` if the token is not on the pool's collateral list.
pub fn lend(pool: &LendingPool, ctx: &Lend, collateral_token: Pubkey, amount: u64) -> (r: Result<
    Transfer,
    LendError,
>)
    ensures
        r == match lend_refusal(pool@, collateral_token, amount) {
            Some(e) => Err::<Transfer, LendError>(e),
            None => Ok::<Transfer, LendError>(deposit_transfer(*ctx, amount)),
        },
{
    if amount == 0 {
        return Err(LendError::LendAmountMustBeGreaterThanZero);
    }
    if !pool.is_valid_collateral_token(collateral_token) {
        return Err(LendError::InvalidCollateralToken);
    }
    Ok(
        Transfer {
            from: ctx.lender_token_account.address,
            to: ctx.pool_token_account.address,
            authority: ctx.lender,
            amount,
        },
    )
}

/// Whether `lend_commit` can enter the deposit: neither the lender's entry nor
/// the pool's would leave the range of a `u64`.
pub fn lend_fits(pool: &LendingPool, ctx: &Lend, collateral_token: Pubkey, amount: u64) -> (r: bool)
    ensures
        r == lend_in_range(pool@, ctx.lender, collateral_token, amount),
{
    let lender_fits = match lent_amount(&pool.lenders, ctx.lender, collateral_token) {
        Some(a) => a <= u64::MAX - amount,
        None => true,
    };
    let pool_fits = match liquidity_amount(&pool.total_lending_pool, collateral_token) {
        Some(a) => a <= u64::MAX - amount,
        None => true,
    };
    lender_fits && pool_fits
}

/// Second step of a deposit, after the transfer that `lend` named has been
/// carried out: adds the amount to the lender's entry and to the pool's
/// liquidity of the token, each with a new entry where there is none.
pub fn lend_commit(pool: &mut LendingPool, ctx: &Lend, collateral_token: Pubkey, amount: u64)
    requires
        lend_refusal(old(pool)@, collateral_token, amount) is None,
        lend_in_range(old(pool)@, ctx.lender, collateral_token, amount),
    ensures
        final(pool)@ == lend_entered(old(pool)@, ctx.lender, collateral_token, amount),
{
    credit_lender(&mut pool.lenders, ctx.lender, collateral_token, amount);
    credit_liquidity(&mut pool.total_lending_pool, collateral_token, amount);
}

} // verus!
