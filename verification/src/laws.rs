//! What holds of the pool across whole operations.
//!
//! An operation is whole when every one of its steps has run and every
//! transfer between them was carried out. The statements here are about whole
//! operations and about sequences of them, over the same functions that the
//! contracts of the steps are written in.

use vstd::prelude::*;
use anchor_lang::prelude::Pubkey;
use crate::accounts::{Borrow, Lend, Repay, Withdraw};
use crate::borrowing::{backs, borrow_prepared, borrow_refusal, loan_admissible, loan_entered};
use crate::errors::{BorrowError, WithdrawError};
use crate::ledger::{
    first_loan, lemma_lent_after_with, lemma_liquidity_after_with, lemma_total_after_credit,
    lemma_total_after_with, lent, liquidity, total_liquidity,
};
use crate::lending::{lend_entered, lend_in_range, lend_refusal};
use crate::repayment::{release_refusal, repaid, repay_in_range};
use crate::state::PoolState;
use crate::withdrawal::{withdraw_refusal, withdrawn};

verus! {

/// One operation with its arguments.
pub enum Call {
    Lend { lend: Lend, collateral_token: Pubkey, amount: u64 },
    Borrow {
        borrow: Borrow,
        borrow_token: Pubkey,
        borrow_amount: u64,
        collateral_token: Pubkey,
        collateral_amount: u64,
    },
    Withdraw { withdraw: Withdraw, collateral_token: Pubkey },
    Repay { repay: Repay, borrow_token: Pubkey },
}

/// The pool after `call` ran through all its steps, or none where a step
/// refuses or an amount would leave its range.
pub open spec fn completed(p: PoolState, call: Call) -> Option<PoolState> {
    match call {
        Call::Lend { lend: ctx, collateral_token, amount } => {
            if lend_refusal(p, collateral_token, amount) is None && lend_in_range(
                p,
                ctx.lender,
                collateral_token,
                amount,
            ) {
                Some(lend_entered(p, ctx.lender, collateral_token, amount))
            } else {
                None
            }
        },
        Call::Borrow { borrow: ctx, borrow_token, borrow_amount, collateral_token, collateral_amount } => {
            if borrow_refusal(
                p,
                ctx.borrower,
                borrow_token,
                borrow_amount,
                collateral_token,
                collateral_amount,
            ) is None {
                Some(
                    loan_entered(
                        borrow_prepared(
                            p,
                            ctx.borrower,
                            borrow_token,
                            borrow_amount,
                            collateral_token,
                            collateral_amount,
                        ),
                        ctx.borrower,
                        borrow_token,
                        borrow_amount,
                        collateral_token,
                        collateral_amount,
                    ),
                )
            } else {
                None
            }
        },
        Call::Withdraw { withdraw: ctx, collateral_token } => {
            if withdraw_refusal(p, ctx, collateral_token) is None {
                Some(withdrawn(p, ctx.lender, collateral_token))
            } else {
                None
            }
        },
        Call::Repay { repay: ctx, borrow_token } => {
            if release_refusal(p, ctx, borrow_token) is None && repay_in_range(
                p,
                ctx.borrower,
                borrow_token,
            ) {
                Some(repaid(p, ctx.borrower, borrow_token))
            } else {
                None
            }
        },
    }
}

/// What the transfers of `call` bring into the pool's custody.
pub open spec fn moved_in(p: PoolState, call: Call) -> int {
    match call {
        Call::Lend { lend: ctx, collateral_token, amount } => amount as int,
        Call::Repay { repay: ctx, borrow_token } => match first_loan(
            p.borrowers,
            ctx.borrower,
            borrow_token,
        ) {
            Some(loan) => loan.amount_borrowed as int,
            None => 0,
        },
        _ => 0,
    }
}

/// What the transfers of `call` take out of the pool's custody.
pub open spec fn moved_out(p: PoolState, call: Call) -> int {
    match call {
        Call::Borrow {
            borrow: ctx,
            borrow_token,
            borrow_amount,
            collateral_token,
            collateral_amount,
        } => borrow_amount as int,
        Call::Withdraw { withdraw: ctx, collateral_token } => match lent(
            p.lenders,
            ctx.lender,
            collateral_token,
        ) {
            Some(amount) => amount as int,
            None => 0,
        },
        Call::Repay { repay: ctx, borrow_token } => match first_loan(
            p.borrowers,
            ctx.borrower,
            borrow_token,
        ) {
            Some(loan) => loan.collateral_amount as int,
            None => 0,
        },
        _ => 0,
    }
}

/// The collateral that `call` hands back to a borrower. It leaves the pool's
/// custody without passing through the liquidity ledger: a loan's collateral
/// is taken from the borrower's deposit entry when the loan is made, and the
/// liquidity ledger never learns of it.
pub open spec fn collateral_returned(p: PoolState, call: Call) -> int {
    match call {
        Call::Repay { repay: ctx, borrow_token } => match first_loan(
            p.borrowers,
            ctx.borrower,
            borrow_token,
        ) {
            Some(loan) => loan.collateral_amount as int,
            None => 0,
        },
        _ => 0,
    }
}

/// The pool after all of `calls` ran, one after the other, or none where one
/// of them does not complete.
pub open spec fn run(p: PoolState, calls: Seq<Call>) -> Option<PoolState>
    decreases calls.len(),
{
    if calls.len() == 0 {
        Some(p)
    } else {
        match completed(p, calls[0]) {
            Some(q) => run(q, calls.drop_first()),
            None => None,
        }
    }
}

/// What the transfers of `calls` bring into the pool's custody, all together.
pub open spec fn total_moved_in(p: PoolState, calls: Seq<Call>) -> int
    decreases calls.len(),
{
    if calls.len() == 0 {
        0
    } else {
        match completed(p, calls[0]) {
            Some(q) => moved_in(p, calls[0]) + total_moved_in(q, calls.drop_first()),
            None => 0,
        }
    }
}

/// What the transfers of `calls` take out of the pool's custody, all together.
pub open spec fn total_moved_out(p: PoolState, calls: Seq<Call>) -> int
    decreases calls.len(),
{
    if calls.len() == 0 {
        0
    } else {
        match completed(p, calls[0]) {
            Some(q) => moved_out(p, calls[0]) + total_moved_out(q, calls.drop_first()),
            None => 0,
        }
    }
}

/// The collateral that `calls` hand back to borrowers, all together.
pub open spec fn total_collateral_returned(p: PoolState, calls: Seq<Call>) -> int
    decreases calls.len(),
{
    if calls.len() == 0 {
        0
    } else {
        match completed(p, calls[0]) {
            Some(q) => collateral_returned(p, calls[0]) + total_collateral_returned(
                q,
                calls.drop_first(),
            ),
            None => 0,
        }
    }
}

/// Once `borrow` has accepted a loan, `borrow_commit` can enter it: the first
/// step leaves the token lists and the loan ledger as they were.
pub proof fn borrow_leads_to_commit(
    p: PoolState,
    who: Pubkey,
    borrow_token: Pubkey,
    borrow_amount: u64,
    collateral_token: Pubkey,
    collateral_amount: u64,
)
    requires
        borrow_refusal(p, who, borrow_token, borrow_amount, collateral_token, collateral_amount)
            is None,
    ensures
        loan_admissible(
            borrow_prepared(
                p,
                who,
                borrow_token,
                borrow_amount,
                collateral_token,
                collateral_amount,
            ),
            who,
            borrow_token,
            borrow_amount,
            collateral_token,
            collateral_amount,
        ),
{
}

/// A whole operation changes the sum of the liquidity ledger by what its
/// transfers bring in, less what they take out, not counting collateral that
/// is handed back to a borrower.
pub proof fn liquidity_follows_transfers(p: PoolState, call: Call)
    requires
        completed(p, call) is Some,
    ensures
        total_liquidity(completed(p, call).unwrap().total_lending_pool) == total_liquidity(
            p.total_lending_pool,
        ) + moved_in(p, call) - moved_out(p, call) + collateral_returned(p, call),
{
    match call {
        Call::Lend { lend: ctx, collateral_token, amount } => {
            lemma_total_after_credit(p.total_lending_pool, collateral_token, amount);
        },
        Call::Borrow { borrow: ctx, borrow_token, borrow_amount, collateral_token, collateral_amount } => {
            let available = liquidity(p.total_lending_pool, borrow_token).unwrap();
            lemma_total_after_with(
                p.total_lending_pool,
                borrow_token,
                (available - borrow_amount) as u64,
            );
        },
        Call::Withdraw { withdraw: ctx, collateral_token } => {
            let amount = lent(p.lenders, ctx.lender, collateral_token).unwrap();
            let balance = liquidity(p.total_lending_pool, collateral_token).unwrap();
            lemma_total_after_with(
                p.total_lending_pool,
                collateral_token,
                (balance - amount) as u64,
            );
        },
        Call::Repay { repay: ctx, borrow_token } => {
            let loan = first_loan(p.borrowers, ctx.borrower, borrow_token).unwrap();
            lemma_total_after_credit(p.total_lending_pool, borrow_token, loan.amount_borrowed);
        },
    }
}

/// Over any sequence of whole operations, the sum of the liquidity ledger
/// moves with the transfers: it ends at where it began, plus all that was
/// moved in, less all that was moved out, not counting collateral handed back
/// to borrowers. Without a repayment nothing is handed back.
pub proof fn liquidity_accounts_for_transfers(p: PoolState, calls: Seq<Call>)
    requires
        run(p, calls) is Some,
    ensures
        total_liquidity(run(p, calls).unwrap().total_lending_pool) == total_liquidity(
            p.total_lending_pool,
        ) + total_moved_in(p, calls) - total_moved_out(p, calls) + total_collateral_returned(
            p,
            calls,
        ),
        (forall|i: int| 0 <= i < calls.len() ==> !(#[trigger] calls[i] is Repay))
            ==> total_collateral_returned(p, calls) == 0,
    decreases calls.len(),
{
    if calls.len() > 0 {
        let q = completed(p, calls[0]).unwrap();
        let rest = calls.drop_first();
        liquidity_follows_transfers(p, calls[0]);
        liquidity_accounts_for_transfers(q, rest);
        if forall|i: int| 0 <= i < calls.len() ==> !(#[trigger] calls[i] is Repay) {
            assert(!(calls[0] is Repay));
            assert forall|i: int| 0 <= i < rest.len() implies !(#[trigger] rest[i] is Repay) by {
                assert(rest[i] == calls[i + 1]);
            }
        }
    }
}

/// Conservation: over any sequence of whole deposits, loans and withdrawals,
/// the sum of the liquidity ledger ends at where it began, plus all that the
/// transfers moved into the pool's custody, less all that they moved out. The
/// engine creates no value and destroys none.
pub proof fn conservation(p: PoolState, calls: Seq<Call>)
    requires
        run(p, calls) is Some,
        forall|i: int| 0 <= i < calls.len() ==> !(#[trigger] calls[i] is Repay),
    ensures
        total_liquidity(run(p, calls).unwrap().total_lending_pool) == total_liquidity(
            p.total_lending_pool,
        ) + total_moved_in(p, calls) - total_moved_out(p, calls),
{
    liquidity_accounts_for_transfers(p, calls);
}

/// A whole operation keeps the collateral ratio: if every unrepaid loan was
/// backed by more than twice its amount before, every one is after.
pub proof fn ratio_kept_by_call(p: PoolState, call: Call)
    requires
        p.collateral_ratio_holds(),
        completed(p, call) is Some,
    ensures
        completed(p, call).unwrap().collateral_ratio_holds(),
{
    let q = completed(p, call).unwrap();
    match call {
        Call::Borrow { borrow: ctx, borrow_token, borrow_amount, collateral_token, collateral_amount } => {
            assert(backs(collateral_amount, borrow_amount));
            assert forall|i: int|
                0 <= i < q.borrowers.len() && !(#[trigger] q.borrowers[i]).2.has_repaid implies q.borrowers[i].2.collateral_amount
                > 2 * q.borrowers[i].2.amount_borrowed by {
                if i < p.borrowers.len() {
                    assert(q.borrowers[i] == p.borrowers[i]);
                }
            }
        },
        _ => {
            assert(q.borrowers == p.borrowers);
        },
    }
}

/// Collateral ratio: no sequence of whole operations leaves an unrepaid loan
/// whose collateral is at most twice the borrowed amount, if it began with
/// none.
pub proof fn ratio_kept(p: PoolState, calls: Seq<Call>)
    requires
        p.collateral_ratio_holds(),
        run(p, calls) is Some,
    ensures
        run(p, calls).unwrap().collateral_ratio_holds(),
    decreases calls.len(),
{
    if calls.len() > 0 {
        ratio_kept_by_call(p, calls[0]);
        ratio_kept(completed(p, calls[0]).unwrap(), calls.drop_first());
    }
}

/// A loan is only made where the collateral is more than twice the borrowed
/// amount, and it is entered as the last loan, not repaid.
pub proof fn loan_made_with_ratio(
    p: PoolState,
    ctx: Borrow,
    borrow_token: Pubkey,
    borrow_amount: u64,
    collateral_token: Pubkey,
    collateral_amount: u64,
)
    requires
        completed(
            p,
            Call::Borrow { borrow: ctx, borrow_token, borrow_amount, collateral_token, collateral_amount },
        ) is Some,
    ensures
        collateral_amount > 2 * borrow_amount,
        ({
            let q = completed(
                p,
                Call::Borrow {
                    borrow: ctx,
                    borrow_token,
                    borrow_amount,
                    collateral_token,
                    collateral_amount,
                },
            ).unwrap();
            &&& q.borrowers.len() == p.borrowers.len() + 1
            &&& q.borrowers.last().0 == ctx.borrower
            &&& q.borrowers.last().1 == borrow_token
            &&& q.borrowers.last().2.amount_borrowed == borrow_amount
            &&& q.borrowers.last().2.collateral_amount == collateral_amount
            &&& q.borrowers.last().2.collateral_token == collateral_token
            &&& !q.borrowers.last().2.has_repaid
        }),
{
}

/// No balance goes below zero in a loan: the borrower's deposit covered the
/// collateral and ends lower by exactly that much, and the pool's liquidity
/// covered the borrowed amount and ends lower by exactly that much.
pub proof fn loan_is_covered(
    p: PoolState,
    ctx: Borrow,
    borrow_token: Pubkey,
    borrow_amount: u64,
    collateral_token: Pubkey,
    collateral_amount: u64,
)
    requires
        completed(
            p,
            Call::Borrow { borrow: ctx, borrow_token, borrow_amount, collateral_token, collateral_amount },
        ) is Some,
    ensures
        ({
            let q = completed(
                p,
                Call::Borrow {
                    borrow: ctx,
                    borrow_token,
                    borrow_amount,
                    collateral_token,
                    collateral_amount,
                },
            ).unwrap();
            &&& lent(p.lenders, ctx.borrower, collateral_token) is Some
            &&& liquidity(p.total_lending_pool, borrow_token) is Some
            &&& lent(p.lenders, ctx.borrower, collateral_token).unwrap() >= collateral_amount
            &&& liquidity(p.total_lending_pool, borrow_token).unwrap() >= borrow_amount
            &&& lent(q.lenders, ctx.borrower, collateral_token) == Some(
                (lent(p.lenders, ctx.borrower, collateral_token).unwrap()
                    - collateral_amount) as u64,
            )
            &&& liquidity(q.total_lending_pool, borrow_token) == Some(
                (liquidity(p.total_lending_pool, borrow_token).unwrap() - borrow_amount) as u64,
            )
        }),
{
    let held = lent(p.lenders, ctx.borrower, collateral_token).unwrap();
    let available = liquidity(p.total_lending_pool, borrow_token).unwrap();
    lemma_lent_after_with(
        p.lenders,
        ctx.borrower,
        collateral_token,
        (held - collateral_amount) as u64,
        ctx.borrower,
        collateral_token,
    );
    lemma_liquidity_after_with(
        p.total_lending_pool,
        borrow_token,
        (available - borrow_amount) as u64,
        borrow_token,
    );
}

/// No balance goes below zero in a withdrawal: the pool's liquidity covered
/// what the lender had deposited and ends lower by exactly that much, and the
/// lender's entry ends at zero.
pub proof fn withdrawal_is_covered(p: PoolState, ctx: Withdraw, collateral_token: Pubkey)
    requires
        completed(p, Call::Withdraw { withdraw: ctx, collateral_token }) is Some,
    ensures
        ({
            let q = completed(p, Call::Withdraw { withdraw: ctx, collateral_token }).unwrap();
            &&& lent(p.lenders, ctx.lender, collateral_token) is Some
            &&& liquidity(p.total_lending_pool, collateral_token) is Some
            &&& liquidity(p.total_lending_pool, collateral_token).unwrap() >= lent(
                p.lenders,
                ctx.lender,
                collateral_token,
            ).unwrap()
            &&& lent(q.lenders, ctx.lender, collateral_token) == Some(0u64)
            &&& liquidity(q.total_lending_pool, collateral_token) == Some(
                (liquidity(p.total_lending_pool, collateral_token).unwrap() - lent(
                    p.lenders,
                    ctx.lender,
                    collateral_token,
                ).unwrap()) as u64,
            )
        }),
{
    let amount = lent(p.lenders, ctx.lender, collateral_token).unwrap();
    let balance = liquidity(p.total_lending_pool, collateral_token).unwrap();
    lemma_lent_after_with(p.lenders, ctx.lender, collateral_token, 0, ctx.lender, collateral_token);
    lemma_liquidity_after_with(
        p.total_lending_pool,
        collateral_token,
        (balance - amount) as u64,
        collateral_token,
    );
}

/// An operation that would take more than is there is refused before it
/// changes the entry: a loan without the collateral leaves the pool as it
/// was, and a loan without the liquidity leaves the liquidity ledger as it
/// was.
pub proof fn uncovered_loan_changes_nothing(
    p: PoolState,
    who: Pubkey,
    borrow_token: Pubkey,
    borrow_amount: u64,
    collateral_token: Pubkey,
    collateral_amount: u64,
)
    ensures
        borrow_refusal(p, who, borrow_token, borrow_amount, collateral_token, collateral_amount)
            == Some(BorrowError::InsufficientCollateralLent) ==> borrow_prepared(
            p,
            who,
            borrow_token,
            borrow_amount,
            collateral_token,
            collateral_amount,
        ) == p,
        borrow_refusal(p, who, borrow_token, borrow_amount, collateral_token, collateral_amount)
            == Some(BorrowError::NotEnoughLiquidity) ==> borrow_prepared(
            p,
            who,
            borrow_token,
            borrow_amount,
            collateral_token,
            collateral_amount,
        ).total_lending_pool == p.total_lending_pool,
{
}

/// A second withdrawal finds nothing: right after a whole withdrawal, the
/// same participant's withdrawal of the same token is refused with
/// `NoAssetsToWithdraw`.
pub proof fn second_withdraw_finds_nothing(p: PoolState, ctx: Withdraw, collateral_token: Pubkey)
    requires
        withdraw_refusal(p, ctx, collateral_token) is None,
    ensures
        withdraw_refusal(withdrawn(p, ctx.lender, collateral_token), ctx, collateral_token) == Some(
            WithdrawError::NoAssetsToWithdraw,
        ),
{
    lemma_lent_after_with(p.lenders, ctx.lender, collateral_token, 0, ctx.lender, collateral_token);
}

} // verus!
