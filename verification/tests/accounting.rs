use anchor_lang::prelude::Pubkey;
use lending_pool::{
    borrow, borrow_commit, initialize, lend, lend_commit, lend_fits, repay, repay_commit,
    repay_fits, repay_release, withdraw, withdraw_commit, Borrow, Initialize, Lend, LendingPool,
    Repay, TokenAccount, Withdraw, WithdrawError,
};

fn name(n: u8) -> Pubkey {
    Pubkey::new_from_array([n; 32])
}

fn holds(address: u8, mint: u8) -> TokenAccount {
    TokenAccount { address: name(address), mint: name(mint) }
}

/// Token 1 may be deposited and borrowed, token 2 as well.
fn open_pool() -> LendingPool {
    let mut pool = LendingPool::new(name(0));
    initialize(
        &mut pool,
        &Initialize { admin: name(99) },
        vec![name(1), name(2)],
        vec![name(1), name(2)],
        name(91),
    )
    .unwrap();
    pool
}

fn total(pool: &LendingPool) -> u128 {
    let mut sum: u128 = 0;
    for entry in pool.total_lending_pool.iter() {
        sum += u128::from(entry.1);
    }
    sum
}

fn ratio_holds(pool: &LendingPool) -> bool {
    pool.borrowers.iter().all(|entry| {
        entry.2.has_repaid
            || u128::from(entry.2.collateral_amount) > 2 * u128::from(entry.2.amount_borrowed)
    })
}

fn do_lend(pool: &mut LendingPool, who: u8, token: u8, amount: u64) -> u64 {
    let ctx = Lend {
        lender: name(who),
        lender_token_account: holds(who + 100, token),
        pool_token_account: holds(91, token),
    };
    let transfer = lend(pool, &ctx, name(token), amount).unwrap();
    assert!(lend_fits(pool, &ctx, name(token), amount));
    lend_commit(pool, &ctx, name(token), amount);
    transfer.amount
}

fn do_borrow(pool: &mut LendingPool, who: u8, token: u8, amount: u64, with: u8, collateral: u64) -> u64 {
    let ctx = Borrow {
        borrower: name(who),
        borrower_token_account: holds(who + 100, token),
        pool_token_account: holds(91, token),
        pool_authority: name(90),
    };
    let transfer = borrow(pool, &ctx, name(token), amount, name(with), collateral).unwrap();
    borrow_commit(pool, &ctx, name(token), amount, name(with), collateral);
    transfer.amount
}

fn do_withdraw(pool: &mut LendingPool, who: u8, token: u8) -> u64 {
    let ctx = Withdraw {
        lender: name(who),
        lender_token_account: holds(who + 100, token),
        pool_token_account: holds(91, token),
        pool_authority: name(90),
    };
    let transfer = withdraw(pool, &ctx, name(token)).unwrap();
    withdraw_commit(pool, &ctx, name(token));
    transfer.amount
}

#[test]
fn liquidity_moves_with_deposits_loans_and_withdrawals() {
    let mut pool = open_pool();
    let mut moved_in: u128 = 0;
    let mut moved_out: u128 = 0;
    moved_in += u128::from(do_lend(&mut pool, 1, 1, 1000));
    assert_eq!(total(&pool), moved_in - moved_out);
    moved_in += u128::from(do_lend(&mut pool, 2, 2, 800));
    assert_eq!(total(&pool), moved_in - moved_out);
    moved_out += u128::from(do_borrow(&mut pool, 1, 2, 300, 1, 700));
    assert_eq!(total(&pool), moved_in - moved_out);
    moved_out += u128::from(do_withdraw(&mut pool, 1, 1));
    assert_eq!(total(&pool), moved_in - moved_out);
    moved_in += u128::from(do_lend(&mut pool, 1, 1, 5));
    assert_eq!(total(&pool), moved_in - moved_out);
    assert_eq!(moved_in, 1805);
    assert_eq!(moved_out, 300 + 300);
    assert_eq!(total(&pool), 1205);
    // The pool has lent out part of token 2: what is left does not cover the
    // whole deposit, and the ledgers stay as they are.
    let ctx = Withdraw {
        lender: name(2),
        lender_token_account: holds(102, 2),
        pool_token_account: holds(91, 2),
        pool_authority: name(90),
    };
    assert_eq!(withdraw(&pool, &ctx, name(2)), Err(WithdrawError::InsufficientPoolBalance));
    assert_eq!(total(&pool), 1205);
}

#[test]
fn repayment_hands_collateral_back_past_the_liquidity() {
    let mut pool = open_pool();
    do_lend(&mut pool, 1, 1, 1000);
    do_lend(&mut pool, 2, 2, 800);
    do_borrow(&mut pool, 1, 2, 300, 1, 700);
    let before = total(&pool);
    let ctx = Repay {
        borrower: name(1),
        borrower_token_account: holds(101, 2),
        pool_token_account: holds(91, 1),
        pool_authority: name(90),
    };
    let repayment = repay(&pool, &ctx, name(2)).unwrap();
    let release = repay_release(&pool, &ctx, name(2)).unwrap();
    assert!(repay_fits(&pool, &ctx, name(2)));
    repay_commit(&mut pool, &ctx, name(2));
    assert_eq!(repayment.amount, 300);
    assert_eq!(release.amount, 700);
    // The liquidity rises by what was repaid; the collateral that went back
    // was never part of it.
    assert_eq!(total(&pool), before + 300);
}

#[test]
fn open_loans_keep_their_ratio() {
    let mut pool = open_pool();
    assert!(ratio_holds(&pool));
    do_lend(&mut pool, 1, 1, 1000);
    do_lend(&mut pool, 2, 2, 800);
    do_borrow(&mut pool, 1, 2, 300, 1, 601);
    assert!(ratio_holds(&pool));
    do_borrow(&mut pool, 2, 1, 1, 2, 3);
    assert!(ratio_holds(&pool));
    do_withdraw(&mut pool, 1, 1);
    assert!(ratio_holds(&pool));
    assert_eq!(pool.borrowers.len(), 2);
}

#[test]
fn balances_end_where_the_amounts_say() {
    let mut pool = open_pool();
    do_lend(&mut pool, 1, 1, 1000);
    do_lend(&mut pool, 2, 2, 800);
    do_borrow(&mut pool, 1, 2, 300, 1, 1000);
    assert_eq!(pool.lenders, vec![(name(1), name(1), 0), (name(2), name(2), 800)]);
    assert_eq!(pool.total_lending_pool, vec![(name(1), 1000), (name(2), 500)]);
    do_borrow(&mut pool, 2, 1, 399, 2, 800);
    assert_eq!(pool.lenders, vec![(name(1), name(1), 0), (name(2), name(2), 0)]);
    assert_eq!(pool.total_lending_pool, vec![(name(1), 601), (name(2), 500)]);
}
