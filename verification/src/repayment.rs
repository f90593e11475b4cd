//! Repaying a loan.
//!
//! A repayment takes three steps, with a transfer after each of the first two.
//! `repay` finds the loan and names the transfer that brings the borrowed
//! amount back into the pool. `repay_release` checks the pool's custody account
//! against the loan's collateral and names the transfer that returns the
//! collateral. `repay_commit` adds the repaid amount to the pool's liquidity.
//!
//! The loan that counts is the borrower's first loan of the token. The loan
//! stays in the ledger, and this engine leaves its `has_repaid` mark as it
//! finds it: nothing here sets the mark, so a loan that was repaid is found
//! again, unrepaid, by the next call.

use vstd::prelude::*;
use anchor_lang::prelude::Pubkey;
use crate::accounts::{Repay, Transfer};
use crate::errors::RepayError;
use crate::keys::same_key;
use crate::ledger::{
    credit_liquidity, find_loan, first_loan, liquidity, liquidity_amount, liquidity_credited,
};
use crate::state::{Borrower, LendingPool, PoolState};

verus! {

/// Why a repayment is refused at its first step, if it is.
pub open spec fn repay_refusal(p: PoolState, who: Pubkey, borrow_token: Pubkey) -> Option<
    RepayError,
> {
    match first_loan(p.borrowers, who, borrow_token) {
        None => Some(RepayError::NoLoanToRepay),
        Some(loan) => if loan.has_repaid {
            Some(RepayError::LoanAlreadyRepaid)
        } else {
            None
        },
    }
}

/// Why a repayment is refused at its first or second step, if it is.
pub open spec fn release_refusal(p: PoolState, ctx: Repay, borrow_token: Pubkey) -> Option<
    RepayError,
> {
    match first_loan(p.borrowers, ctx.borrower, borrow_token) {
        None => Some(RepayError::NoLoanToRepay),
        Some(loan) => if loan.has_repaid {
            Some(RepayError::LoanAlreadyRepaid)
        } else if ctx.pool_token_account.mint != loan.collateral_token {
            Some(RepayError::InvalidCollateralToken)
        } else {
            None
        },
    }
}

/// The transfer that repays `loan`: the borrowed amount, from the borrower's
/// account into the pool's, on the borrower's authority.
pub open spec fn repayment_transfer(ctx: Repay, loan: Borrower) -> Transfer {
    Transfer {
        from: ctx.borrower_token_account.address,
        to: ctx.pool_token_account.address,
        authority: ctx.borrower,
        amount: loan.amount_borrowed,
    }
}

/// The transfer that returns the collateral of `loan`: from the pool's
/// account into the borrower's, on the pool authority's word.
pub open spec fn release_transfer(ctx: Repay, loan: Borrower) -> Transfer {
    Transfer {
        from: ctx.pool_token_account.address,
        to: ctx.borrower_token_account.address,
        authority: ctx.pool_authority,
        amount: loan.collateral_amount,
    }
}

/// Whether the pool's liquidity of `borrow_token` can take back what the
/// first loan of `who` borrowed without leaving the range of its amounts.
pub open spec fn repay_in_range(p: PoolState, who: Pubkey, borrow_token: Pubkey) -> bool {
    match (
        first_loan(p.borrowers, who, borrow_token),
        liquidity(p.total_lending_pool, borrow_token),
    ) {
        (Some(loan), Some(balance)) => balance + loan.amount_borrowed <= u64::MAX,
        _ => true,
    }
}

/// The pool after the first loan of `who` in `borrow_token` was repaid: the
/// pool's liquidity of the token is higher by the borrowed amount, with a new
/// entry where there was none.
pub open spec fn repaid(p: PoolState, who: Pubkey, borrow_token: Pubkey) -> PoolState {
    match first_loan(p.borrowers, who, borrow_token) {
        Some(loan) => PoolState {
            total_lending_pool: liquidity_credited(
                p.total_lending_pool,
                borrow_token,
                loan.amount_borrowed,
            ),
            ..p
        },
        None => p,
    }
}

/// First step of a repayment: finds the borrower's first loan of the token and
/// names the transfer that repays it.
///
/// Fails with `NoLoanToRepay` if the borrower has no loan of the token, and
/// with `LoanAlreadyRepaid` if the first one is marked as repaid.
pub fn repay(pool: &LendingPool, ctx: &Repay, borrow_token: Pubkey) -> (r: Result<
    Transfer,
    RepayError,
>)
    ensures
        r == match repay_refusal(pool@, ctx.borrower, borrow_token) {
            Some(e) => Err::<Transfer, RepayError>(e),
            None => Ok::<Transfer, RepayError>(
                repayment_transfer(
                    *ctx,
                    first_loan(pool@.borrowers, ctx.borrower, borrow_token).unwrap(),
                ),
            ),
        },
{
    match find_loan(&pool.borrowers, ctx.borrower, borrow_token) {
        None => Err(RepayError::NoLoanToRepay),
        Some(loan) => {
            if loan.has_repaid {
                return Err(RepayError::LoanAlreadyRepaid);
            }
            Ok(
                Transfer {
                    from: ctx.borrower_token_account.address,
                    to: ctx.pool_token_account.address,
                    authority: ctx.borrower,
                    amount: loan.amount_borrowed,
                },
            )
        },
    }
}

/// Second step of a repayment, after the transfer that `repay` named has been
/// carried out: names the transfer that returns the loan's collateral.
///
/// Fails as `repay` does, and with `InvalidCollateralToken` if the pool's
/// custody account holds another token than the loan's collateral.
pub fn repay_release(pool: &LendingPool, ctx: &Repay, borrow_token: Pubkey) -> (r: Result<
    Transfer,
    RepayError,
>)
    ensures
        r == match release_refusal(pool@, *ctx, borrow_token) {
            Some(e) => Err::<Transfer, RepayError>(e),
            None => Ok::<Transfer, RepayError>(
                release_transfer(
                    *ctx,
                    first_loan(pool@.borrowers, ctx.borrower, borrow_token).unwrap(),
                ),
            ),
        },
{
    match find_loan(&pool.borrowers, ctx.borrower, borrow_token) {
        None => Err(RepayError::NoLoanToRepay),
        Some(loan) => {
            if loan.has_repaid {
                return Err(RepayError::LoanAlreadyRepaid);
            }
            if !same_key(&ctx.pool_token_account.mint, &loan.collateral_token) {
                return Err(RepayError::InvalidCollateralToken);
            }
            Ok(
                Transfer {
                    from: ctx.pool_token_account.address,
                    to: ctx.borrower_token_account.address,
                    authority: ctx.pool_authority,
                    amount: loan.collateral_amount,
                },
            )
        },
    }
}

/// Whether `repay_commit` can enter the repayment: the pool's liquidity of the
/// token would not leave the range of a `u64`.
pub fn repay_fits(pool: &LendingPool, ctx: &Repay, borrow_token: Pubkey) -> (r: bool)
    ensures
        r == repay_in_range(pool@, ctx.borrower, borrow_token),
{
    match find_loan(&pool.borrowers, ctx.borrower, borrow_token) {
        None => true,
        Some(loan) => match liquidity_amount(&pool.total_lending_pool, borrow_token) {
            None => true,
            Some(balance) => balance <= u64::MAX - loan.amount_borrowed,
        },
    }
}

/// Third step of a repayment, after the transfer that `repay_release` named
/// has been carried out: adds the repaid amount to the pool's liquidity of the
/// token. The loan ledger is left as it is.
pub fn repay_commit(pool: &mut LendingPool, ctx: &Repay, borrow_token: Pubkey)
    requires
        release_refusal(old(pool)@, *ctx, borrow_token) is None,
        repay_in_range(old(pool)@, ctx.borrower, borrow_token),
    ensures
        final(pool)@ == repaid(old(pool)@, ctx.borrower, borrow_token),
{
    match find_loan(&pool.borrowers, ctx.borrower, borrow_token) {
        Some(loan) => {
            credit_liquidity(&mut pool.total_lending_pool, borrow_token, loan.amount_borrowed);
        },
        None => {},
    }
}

} // verus!
