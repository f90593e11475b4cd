use anchor_lang::prelude::Pubkey;
use lending_pool::{
    borrow, initialize, lend, repay, repay_release, withdraw, Borrow, BorrowError, Borrower,
    Initialize, InitializeError, Lend, LendError, LendingPool, Repay, RepayError, TokenAccount,
    Withdraw, WithdrawError,
};

fn id(n: u8) -> Pubkey {
    Pubkey::new_from_array([n; 32])
}

fn at(address: u8, mint: u8) -> TokenAccount {
    TokenAccount { address: id(address), mint: id(mint) }
}

/// Collateral token 1, borrow token 2; participant 10 has 1000 of token 1
/// deposited; the pool accounts for 1000 of token 1 and 500 of token 2.
fn stocked_pool() -> LendingPool {
    let mut pool = LendingPool::new(id(0));
    initialize(&mut pool, &Initialize { admin: id(99) }, vec![id(2)], vec![id(1)], id(91)).unwrap();
    pool.lenders.push((id(10), id(1), 1000));
    pool.total_lending_pool.push((id(1), 1000));
    pool.total_lending_pool.push((id(2), 500));
    pool
}

fn lender() -> Lend {
    Lend { lender: id(10), lender_token_account: at(11, 1), pool_token_account: at(91, 1) }
}

fn borrower() -> Borrow {
    Borrow {
        borrower: id(10),
        borrower_token_account: at(11, 2),
        pool_token_account: at(91, 2),
        pool_authority: id(90),
    }
}

fn withdrawer(pool_mint: u8) -> Withdraw {
    Withdraw {
        lender: id(10),
        lender_token_account: at(11, 1),
        pool_token_account: at(91, pool_mint),
        pool_authority: id(90),
    }
}

fn repayer(pool_mint: u8) -> Repay {
    Repay {
        borrower: id(10),
        borrower_token_account: at(11, 2),
        pool_token_account: at(91, pool_mint),
        pool_authority: id(90),
    }
}

fn loan(repaid: bool) -> Borrower {
    Borrower { amount_borrowed: 300, collateral_amount: 700, collateral_token: id(1), has_repaid: repaid }
}

#[test]
fn initialize_twice_is_refused() {
    let mut pool = stocked_pool();
    let before = pool.clone();
    assert_eq!(
        initialize(&mut pool, &Initialize { admin: id(99) }, vec![id(5)], vec![id(6)], id(7)),
        Err(InitializeError::PoolAlreadyInitialized)
    );
    assert_eq!(pool, before);
}

#[test]
fn lend_of_nothing_is_refused() {
    let pool = stocked_pool();
    assert_eq!(
        lend(&pool, &lender(), id(1), 0),
        Err(LendError::LendAmountMustBeGreaterThanZero)
    );
}

#[test]
fn lend_of_nothing_is_refused_before_the_token_is_looked_at() {
    let pool = stocked_pool();
    assert_eq!(
        lend(&pool, &lender(), id(7), 0),
        Err(LendError::LendAmountMustBeGreaterThanZero)
    );
}

#[test]
fn lend_of_unlisted_token_is_refused() {
    let pool = stocked_pool();
    assert_eq!(lend(&pool, &lender(), id(2), 5), Err(LendError::InvalidCollateralToken));
}

#[test]
fn borrow_of_nothing_is_refused() {
    let mut pool = stocked_pool();
    let before = pool.clone();
    assert_eq!(
        borrow(&mut pool, &borrower(), id(2), 0, id(1), 700),
        Err(BorrowError::BorrowAmountMustBeGreaterThanZero)
    );
    assert_eq!(pool, before);
}

#[test]
fn borrow_of_unlisted_token_is_refused() {
    let mut pool = stocked_pool();
    let before = pool.clone();
    assert_eq!(
        borrow(&mut pool, &borrower(), id(1), 300, id(1), 700),
        Err(BorrowError::InvalidBorrowToken)
    );
    assert_eq!(pool, before);
}

#[test]
fn borrow_against_unlisted_collateral_is_refused() {
    let mut pool = stocked_pool();
    let before = pool.clone();
    assert_eq!(
        borrow(&mut pool, &borrower(), id(2), 300, id(2), 700),
        Err(BorrowError::InvalidCollateralToken)
    );
    assert_eq!(pool, before);
}

#[test]
fn borrow_without_a_deposit_is_refused() {
    let mut pool = stocked_pool();
    let before = pool.clone();
    let stranger = Borrow { borrower: id(20), ..borrower() };
    assert_eq!(
        borrow(&mut pool, &stranger, id(2), 300, id(1), 700),
        Err(BorrowError::InsufficientCollateralLent)
    );
    assert_eq!(pool, before);
}

#[test]
fn borrow_against_more_than_the_deposit_is_refused() {
    let mut pool = stocked_pool();
    let before = pool.clone();
    assert_eq!(
        borrow(&mut pool, &borrower(), id(2), 300, id(1), 1001),
        Err(BorrowError::InsufficientCollateralLent)
    );
    assert_eq!(pool, before);
    assert!(borrow(&mut pool, &borrower(), id(2), 300, id(1), 1000).is_ok());
}

#[test]
fn borrow_with_thin_collateral_is_refused_with_the_collateral_set_aside() {
    let mut pool = stocked_pool();
    assert_eq!(
        borrow(&mut pool, &borrower(), id(2), 300, id(1), 600),
        Err(BorrowError::CollateralMustBe2xBorrowAmount)
    );
    assert_eq!(pool.lenders, vec![(id(10), id(1), 400)]);
    assert_eq!(pool.total_lending_pool, vec![(id(1), 1000), (id(2), 500)]);
    assert!(pool.borrowers.is_empty());
}

#[test]
fn borrow_of_huge_amount_is_refused_for_its_collateral() {
    let mut pool = stocked_pool();
    pool.lenders[0].2 = u64::MAX;
    // Twice the amount is beyond any collateral.
    assert_eq!(
        borrow(&mut pool, &borrower(), id(2), u64::MAX / 2 + 1, id(1), u64::MAX),
        Err(BorrowError::CollateralMustBe2xBorrowAmount)
    );
}

#[test]
fn borrow_with_an_open_loan_is_refused() {
    let mut pool = stocked_pool();
    pool.borrowers.push((id(10), id(2), loan(false)));
    assert_eq!(
        borrow(&mut pool, &borrower(), id(2), 100, id(1), 201),
        Err(BorrowError::LoanAlreadyExists)
    );
    assert_eq!(pool.lenders, vec![(id(10), id(1), 799)]);
    assert_eq!(pool.borrowers.len(), 1);
}

#[test]
fn borrow_with_an_open_loan_behind_a_repaid_one_is_refused() {
    let mut pool = stocked_pool();
    pool.borrowers.push((id(10), id(2), loan(true)));
    pool.borrowers.push((id(10), id(2), loan(false)));
    assert_eq!(
        borrow(&mut pool, &borrower(), id(2), 100, id(1), 201),
        Err(BorrowError::LoanAlreadyExists)
    );
}

#[test]
fn borrow_with_only_repaid_loans_goes_through() {
    let mut pool = stocked_pool();
    pool.borrowers.push((id(10), id(2), loan(true)));
    pool.borrowers.push((id(20), id(2), loan(false)));
    pool.borrowers.push((id(10), id(3), loan(false)));
    assert!(borrow(&mut pool, &borrower(), id(2), 100, id(1), 201).is_ok());
}

#[test]
fn borrow_of_more_than_the_pool_has_is_refused() {
    let mut pool = stocked_pool();
    pool.lenders[0].2 = 5000;
    assert_eq!(
        borrow(&mut pool, &borrower(), id(2), 501, id(1), 1003),
        Err(BorrowError::NotEnoughLiquidity)
    );
    assert_eq!(pool.total_lending_pool, vec![(id(1), 1000), (id(2), 500)]);
    assert_eq!(pool.lenders, vec![(id(10), id(1), 3997)]);
    let mut pool = stocked_pool();
    pool.lenders[0].2 = 5000;
    assert!(borrow(&mut pool, &borrower(), id(2), 500, id(1), 1001).is_ok());
    assert_eq!(pool.total_lending_pool, vec![(id(1), 1000), (id(2), 0)]);
}

#[test]
fn withdraw_without_a_deposit_is_refused() {
    let pool = stocked_pool();
    let stranger = Withdraw { lender: id(20), ..withdrawer(1) };
    assert_eq!(withdraw(&pool, &stranger, id(1)), Err(WithdrawError::NoAssetsToWithdraw));
    assert_eq!(withdraw(&pool, &withdrawer(1), id(2)), Err(WithdrawError::NoAssetsToWithdraw));
}

#[test]
fn withdraw_of_an_empty_deposit_is_refused() {
    let mut pool = stocked_pool();
    pool.lenders[0].2 = 0;
    assert_eq!(withdraw(&pool, &withdrawer(1), id(1)), Err(WithdrawError::NoAssetsToWithdraw));
}

#[test]
fn withdraw_of_more_than_the_pool_has_is_refused() {
    let mut pool = stocked_pool();
    pool.total_lending_pool[0].1 = 999;
    assert_eq!(
        withdraw(&pool, &withdrawer(1), id(1)),
        Err(WithdrawError::InsufficientPoolBalance)
    );
    pool.total_lending_pool[0].1 = 1000;
    assert!(withdraw(&pool, &withdrawer(1), id(1)).is_ok());
}

#[test]
fn withdraw_without_a_pool_entry_is_refused() {
    let mut pool = stocked_pool();
    pool.total_lending_pool.clear();
    assert_eq!(
        withdraw(&pool, &withdrawer(1), id(1)),
        Err(WithdrawError::InsufficientPoolBalance)
    );
}

#[test]
fn withdraw_from_an_account_of_another_token_is_refused() {
    let pool = stocked_pool();
    assert_eq!(
        withdraw(&pool, &withdrawer(2), id(1)),
        Err(WithdrawError::InvalidCollateralToken)
    );
}

#[test]
fn withdraw_looks_at_the_balance_before_the_account() {
    let mut pool = stocked_pool();
    pool.total_lending_pool[0].1 = 10;
    assert_eq!(
        withdraw(&pool, &withdrawer(2), id(1)),
        Err(WithdrawError::InsufficientPoolBalance)
    );
}

#[test]
fn repay_without_a_loan_is_refused() {
    let pool = stocked_pool();
    assert_eq!(repay(&pool, &repayer(1), id(2)), Err(RepayError::NoLoanToRepay));
    assert_eq!(repay_release(&pool, &repayer(1), id(2)), Err(RepayError::NoLoanToRepay));
}

#[test]
fn repay_of_a_repaid_loan_is_refused() {
    let mut pool = stocked_pool();
    pool.borrowers.push((id(10), id(2), loan(true)));
    assert_eq!(repay(&pool, &repayer(1), id(2)), Err(RepayError::LoanAlreadyRepaid));
    assert_eq!(repay_release(&pool, &repayer(1), id(2)), Err(RepayError::LoanAlreadyRepaid));
}

#[test]
fn repay_goes_by_the_first_loan_of_the_key() {
    let mut pool = stocked_pool();
    pool.borrowers.push((id(10), id(2), loan(true)));
    pool.borrowers.push((id(10), id(2), loan(false)));
    // The open loan behind the repaid one is not reached.
    assert_eq!(repay(&pool, &repayer(1), id(2)), Err(RepayError::LoanAlreadyRepaid));
    let mut pool = stocked_pool();
    pool.borrowers.push((id(20), id(2), loan(true)));
    pool.borrowers.push((id(10), id(3), loan(true)));
    pool.borrowers.push((
        id(10),
        id(2),
        Borrower { amount_borrowed: 42, collateral_amount: 90, collateral_token: id(1), has_repaid: false },
    ));
    pool.borrowers.push((id(10), id(2), loan(false)));
    assert_eq!(repay(&pool, &repayer(1), id(2)).unwrap().amount, 42);
    assert_eq!(repay_release(&pool, &repayer(1), id(2)).unwrap().amount, 90);
}

#[test]
fn release_from_an_account_of_another_token_is_refused() {
    let mut pool = stocked_pool();
    pool.borrowers.push((id(10), id(2), loan(false)));
    assert!(repay(&pool, &repayer(2), id(2)).is_ok());
    assert_eq!(
        repay_release(&pool, &repayer(2), id(2)),
        Err(RepayError::InvalidCollateralToken)
    );
    assert!(repay_release(&pool, &repayer(1), id(2)).is_ok());
}

#[test]
fn every_error_has_its_message() {
    assert_eq!(
        InitializeError::PoolAlreadyInitialized.message(),
        "The lending pool has already been initialized"
    );
    assert_eq!(
        LendError::LendAmountMustBeGreaterThanZero.message(),
        "Lending amount must be greater than zero"
    );
    assert_eq!(LendError::InvalidCollateralToken.message(), "Invalid collateral token");
    assert_eq!(
        BorrowError::BorrowAmountMustBeGreaterThanZero.message(),
        "Borrow amount must be greater than zero"
    );
    assert_eq!(BorrowError::InvalidBorrowToken.message(), "Invalid borrow token");
    assert_eq!(BorrowError::InvalidCollateralToken.message(), "Invalid collateral token");
    assert_eq!(BorrowError::InsufficientCollateralLent.message(), "Insufficient collateral lent");
    assert_eq!(BorrowError::LoanAlreadyExists.message(), "Loan already exists");
    assert_eq!(BorrowError::NotEnoughLiquidity.message(), "Not enough liquidity in the pool");
    assert_eq!(
        BorrowError::CollateralMustBe2xBorrowAmount.message(),
        "Collateral must be 2x borrow amount"
    );
    assert_eq!(WithdrawError::NoAssetsToWithdraw.message(), "No assets to withdraw");
    assert_eq!(WithdrawError::InsufficientPoolBalance.message(), "Insufficient pool balance");
    assert_eq!(WithdrawError::InvalidCollateralToken.message(), "Invalid collateral token");
    assert_eq!(RepayError::NoLoanToRepay.message(), "No loan to repay");
    assert_eq!(RepayError::LoanAlreadyRepaid.message(), "Loan already repaid");
    assert_eq!(RepayError::NotEnoughCollateralInPool.message(), "Not enough collateral in pool");
    assert_eq!(RepayError::InvalidCollateralToken.message(), "Invalid collateral token");
}
