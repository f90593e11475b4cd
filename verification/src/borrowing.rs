//! Borrowing against deposited collateral.
//!
//! A loan takes two steps. `borrow` checks the request, sets the collateral
//! aside, takes the borrowed amount out of the pool's liquidity and names the
//! transfer that pays the borrower. Once the host has carried it out,
//! `borrow_commit` enters the loan.
//!
//! The checks run in a fixed order and the collateral is set aside as soon as
//! it is known to be there, before the later checks. A call that fails on a
//! later check leaves the collateral set aside; the host discards the pool of
//! a failed call.

use vstd::prelude::*;
use anchor_lang::prelude::Pubkey;
use crate::accounts::{Borrow, Transfer};
use crate::errors::BorrowError;
use crate::ledger::{
    any_active_loan, find_lender, find_liquidity, has_active_loan, lenders_with, lent, liquidity,
    liquidity_with,
};
use crate::state::{Borrower, LendingPool, PoolState};

verus! {

/// Collateral backs a loan when it is more than twice the borrowed amount.
pub open spec fn backs(collateral_amount: u64, borrow_amount: u64) -> bool {
    collateral_amount > 2 * borrow_amount
}

/// Why a loan is refused, if it is: the first check that fails, in the order
/// in which `borrow` makes them.
pub open spec fn borrow_refusal(
    p: PoolState,
    who: Pubkey,
    borrow_token: Pubkey,
    borrow_amount: u64,
    collateral_token: Pubkey,
    collateral_amount: u64,
) -> Option<BorrowError> {
    if borrow_amount == 0 {
        Some(BorrowError::BorrowAmountMustBeGreaterThanZero)
    } else if !p.borrow_tokens.contains(borrow_token) {
        Some(BorrowError::InvalidBorrowToken)
    } else if !p.collateral_tokens.contains(collateral_token) {
        Some(BorrowError::InvalidCollateralToken)
    } else if !p.has_lent(who, collateral_token, collateral_amount) {
        Some(BorrowError::InsufficientCollateralLent)
    } else if !backs(collateral_amount, borrow_amount) {
        Some(BorrowError::CollateralMustBe2xBorrowAmount)
    } else if has_active_loan(p.borrowers, who, borrow_token) {
        Some(BorrowError::LoanAlreadyExists)
    } else if !p.has_liquidity(borrow_token, borrow_amount) {
        Some(BorrowError::NotEnoughLiquidity)
    } else {
        None
    }
}

/// The pool with `amount` of `token` taken out of what `who` has deposited.
pub open spec fn collateral_reserved(p: PoolState, who: Pubkey, token: Pubkey, amount: u64) -> PoolState {
    PoolState {
        lenders: match lent(p.lenders, who, token) {
            Some(a) => lenders_with(p.lenders, who, token, (a - amount) as u64),
            None => p.lenders,
        },
        ..p
    }
}

/// The pool with `amount` of `token` taken out of its liquidity.
pub open spec fn liquidity_taken(p: PoolState, token: Pubkey, amount: u64) -> PoolState {
    PoolState {
        total_lending_pool: match liquidity(p.total_lending_pool, token) {
            Some(a) => liquidity_with(p.total_lending_pool, token, (a - amount) as u64),
            None => p.total_lending_pool,
        },
        ..p
    }
}

/// The pool as the first step of a loan leaves it: untouched where an early
/// check failed, with the collateral set aside where a later one did, and
/// with the borrowed amount taken out of the liquidity as well where none did.
pub open spec fn borrow_prepared(
    p: PoolState,
    who: Pubkey,
    borrow_token: Pubkey,
    borrow_amount: u64,
    collateral_token: Pubkey,
    collateral_amount: u64,
) -> PoolState {
    match borrow_refusal(p, who, borrow_token, borrow_amount, collateral_token, collateral_amount) {
        Some(BorrowError::BorrowAmountMustBeGreaterThanZero) => p,
        Some(BorrowError::InvalidBorrowToken) => p,
        Some(BorrowError::InvalidCollateralToken) => p,
        Some(BorrowError::InsufficientCollateralLent) => p,
        Some(_) => collateral_reserved(p, who, collateral_token, collateral_amount),
        None => liquidity_taken(
            collateral_reserved(p, who, collateral_token, collateral_amount),
            borrow_token,
            borrow_amount,
        ),
    }
}

/// The transfer that pays a loan out: from the pool's account into the
/// borrower's, on the pool authority's word.
pub open spec fn payout_transfer(ctx: Borrow, borrow_amount: u64) -> Transfer {
    Transfer {
        from: ctx.pool_token_account.address,
        to: ctx.borrower_token_account.address,
        authority: ctx.pool_authority,
        amount: borrow_amount,
    }
}

/// What of `borrow`'s checks can still be read off the pool once the first
/// step has changed it: amount, tokens, collateral ratio, and that the
/// borrower has no unrepaid loan of the token.
pub open spec fn loan_admissible(
    p: PoolState,
    who: Pubkey,
    borrow_token: Pubkey,
    borrow_amount: u64,
    collateral_token: Pubkey,
    collateral_amount: u64,
) -> bool {
    &&& borrow_amount > 0
    &&& p.borrow_tokens.contains(borrow_token)
    &&& p.collateral_tokens.contains(collateral_token)
    &&& backs(collateral_amount, borrow_amount)
    &&& !has_active_loan(p.borrowers, who, borrow_token)
}

/// The loan that a request asks for, not repaid.
pub open spec fn new_loan(borrow_amount: u64, collateral_token: Pubkey, collateral_amount: u64) -> Borrower {
    Borrower {
        amount_borrowed: borrow_amount,
        collateral_amount,
        collateral_token,
        has_repaid: false,
    }
}

/// The pool after the loan was entered as the last entry of the loan ledger.
pub open spec fn loan_entered(
    p: PoolState,
    who: Pubkey,
    borrow_token: Pubkey,
    borrow_amount: u64,
    collateral_token: Pubkey,
    collateral_amount: u64,
) -> PoolState {
    PoolState {
        borrowers: p.borrowers.push(
            (who, borrow_token, new_loan(borrow_amount, collateral_token, collateral_amount)),
        ),
        ..p
    }
}

/// Whether `collateral_amount` is more than twice `borrow_amount`, computed
/// without leaving the range of a `u64`.
pub fn exceeds_twice(collateral_amount: u64, borrow_amount: u64) -> (r: bool)
    ensures
        r == backs(collateral_amount, borrow_amount),
{
    borrow_amount <= u64::MAX / 2 && collateral_amount > 2 * borrow_amount
}

/// First step of a loan: checks it, sets the collateral aside, takes the
/// borrowed amount out of the pool's liquidity, and names the transfer that
/// pays the borrower.
///
/// The checks, in order: the amount is not zero; the token is on the borrow
/// list; the collateral token is on the collateral list; the borrower has the
/// collateral deposited; the collateral is more than twice the amount; the
/// borrower has no unrepaid loan of the token; the pool has the liquidity.
/// The collateral is set aside between the fourth and the fifth.
pub fn borrow(
    pool: &mut LendingPool,
    ctx: &Borrow,
    borrow_token: Pubkey,
    borrow_amount: u64,
    collateral_token: Pubkey,
    collateral_amount: u64,
) -> (r: Result<Transfer, BorrowError>)
    ensures
        r == match borrow_refusal(
            old(pool)@,
            ctx.borrower,
            borrow_token,
            borrow_amount,
            collateral_token,
            collateral_amount,
        ) {
            Some(e) => Err::<Transfer, BorrowError>(e),
            None => Ok::<Transfer, BorrowError>(payout_transfer(*ctx, borrow_amount)),
        },
        final(pool)@ == borrow_prepared(
            old(pool)@,
            ctx.borrower,
            borrow_token,
            borrow_amount,
            collateral_token,
            collateral_amount,
        ),
        old(pool)@.collateral_ratio_holds() ==> final(pool)@.collateral_ratio_holds(),
{
    if borrow_amount == 0 {
        return Err(BorrowError::BorrowAmountMustBeGreaterThanZero);
    }
    if !pool.is_valid_borrow_token(borrow_token) {
        return Err(BorrowError::InvalidBorrowToken);
    }
    if !pool.is_valid_collateral_token(collateral_token) {
        return Err(BorrowError::InvalidCollateralToken);
    }
    match find_lender(&pool.lenders, ctx.borrower, collateral_token) {
        Some(i) => {
            let available: u64 = pool.lenders[i].2;
            if available < collateral_amount {
                return Err(BorrowError::InsufficientCollateralLent);
            }
            pool.lenders.set(i, (ctx.borrower, collateral_token, available - collateral_amount));
        },
        None => {
            return Err(BorrowError::InsufficientCollateralLent);
        },
    }
    if !exceeds_twice(collateral_amount, borrow_amount) {
        return Err(BorrowError::CollateralMustBe2xBorrowAmount);
    }
    if any_active_loan(&pool.borrowers, ctx.borrower, borrow_token) {
        return Err(BorrowError::LoanAlreadyExists);
    }
    match find_liquidity(&pool.total_lending_pool, borrow_token) {
        Some(i) => {
            let available: u64 = pool.total_lending_pool[i].1;
            if available < borrow_amount {
                return Err(BorrowError::NotEnoughLiquidity);
            }
            pool.total_lending_pool.set(i, (borrow_token, available - borrow_amount));
        },
        None => {
            return Err(BorrowError::NotEnoughLiquidity);
        },
    }
    Ok(
        Transfer {
            from: ctx.pool_token_account.address,
            to: ctx.borrower_token_account.address,
            authority: ctx.pool_authority,
            amount: borrow_amount,
        },
    )
}

/// Second step of a loan, after the transfer that `borrow` named has been
/// carried out: enters the loan, not repaid, behind all earlier loans.
pub fn borrow_commit(
    pool: &mut LendingPool,
    ctx: &Borrow,
    borrow_token: Pubkey,
    borrow_amount: u64,
    collateral_token: Pubkey,
    collateral_amount: u64,
)
    requires
        loan_admissible(
            old(pool)@,
            ctx.borrower,
            borrow_token,
            borrow_amount,
            collateral_token,
            collateral_amount,
        ),
    ensures
        final(pool)@ == loan_entered(
            old(pool)@,
            ctx.borrower,
            borrow_token,
            borrow_amount,
            collateral_token,
            collateral_amount,
        ),
        old(pool)@.collateral_ratio_holds() ==> final(pool)@.collateral_ratio_holds(),
{
    pool.borrowers.push(
        (
            ctx.borrower,
            borrow_token,
            Borrower {
                amount_borrowed: borrow_amount,
                collateral_amount,
                collateral_token,
                has_repaid: false,
            },
        ),
    );
}

} // verus!
