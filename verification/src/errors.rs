//! The error kinds of the five entry points.

use vstd::prelude::*;

verus! {

/// Why `initialize` refused.
#[derive(Clone, Copy, Debug, PartialEq, Eq, Structural)]
pub enum InitializeError {
    /// The pool was initialized before.
    PoolAlreadyInitialized,
}

/// Why `lend` refused.
#[derive(Clone, Copy, Debug, PartialEq, Eq, Structural)]
pub enum LendError {
    /// The amount to deposit is zero.
    LendAmountMustBeGreaterThanZero,
    /// The token is not on the pool's list of collateral tokens.
    InvalidCollateralToken,
}

/// Why `borrow` refused.
#[derive(Clone, Copy, Debug, PartialEq, Eq, Structural)]
pub enum BorrowError {
    /// The amount to borrow is zero.
    BorrowAmountMustBeGreaterThanZero,
    /// The token to borrow is not on the pool's list of borrow tokens.
    InvalidBorrowToken,
    /// The collateral token is not on the pool's list of collateral tokens.
    InvalidCollateralToken,
    /// The borrower has deposited less of the collateral token than the loan
    /// would reserve, or none at all.
    InsufficientCollateralLent,
    /// The borrower has an unrepaid loan of the same token.
    LoanAlreadyExists,
    /// The pool holds less of the token than is asked for, or none at all.
    NotEnoughLiquidity,
    /// The collateral does not exceed twice the borrowed amount.
    CollateralMustBe2xBorrowAmount,
}

/// Why `withdraw` refused.
#[derive(Clone, Copy, Debug, PartialEq, Eq, Structural)]
pub enum WithdrawError {
    /// The participant has nothing deposited of the token.
    NoAssetsToWithdraw,
    /// The pool holds less of the token than the participant has deposited.
    InsufficientPoolBalance,
    /// The pool's custody account holds another token.
    InvalidCollateralToken,
}

/// Why `repay` refused.
#[derive(Clone, Copy, Debug, PartialEq, Eq, Structural)]
pub enum RepayError {
    /// The participant has no loan of the token.
    NoLoanToRepay,
    /// The participant's loan of the token is marked as repaid.
    LoanAlreadyRepaid,
    /// Reserved for a pool that cannot return the collateral; no step of the
    /// engine reports it.
    NotEnoughCollateralInPool,
    /// The pool's custody account holds another token than the loan's
    /// collateral.
    InvalidCollateralToken,
}

impl InitializeError {
    /// The text of the message that goes with the error.
    pub open spec fn message_text(self) -> Seq<char> {
        match self {
            InitializeError::PoolAlreadyInitialized => "The lending pool has already been initialized"@,
        }
    }

    /// The message that goes with the error, for a client to show.
    pub fn message(&self) -> (r: &'static str)
        ensures
            r@ == self.message_text(),
    {
        match self {
            InitializeError::PoolAlreadyInitialized => "The lending pool has already been initialized",
        }
    }
}

impl LendError {
    /// The text of the message that goes with the error.
    pub open spec fn message_text(self) -> Seq<char> {
        match self {
            LendError::LendAmountMustBeGreaterThanZero => "Lending amount must be greater than zero"@,
            LendError::InvalidCollateralToken => "Invalid collateral token"@,
        }
    }

    /// The message that goes with the error, for a client to show.
    pub fn message(&self) -> (r: &'static str)
        ensures
            r@ == self.message_text(),
    {
        match self {
            LendError::LendAmountMustBeGreaterThanZero => "Lending amount must be greater than zero",
            LendError::InvalidCollateralToken => "Invalid collateral token",
        }
    }
}

impl BorrowError {
    /// The text of the message that goes with the error.
    pub open spec fn message_text(self) -> Seq<char> {
        match self {
            BorrowError::BorrowAmountMustBeGreaterThanZero => "Borrow amount must be greater than zero"@,
            BorrowError::InvalidBorrowToken => "Invalid borrow token"@,
            BorrowError::InvalidCollateralToken => "Invalid collateral token"@,
            BorrowError::InsufficientCollateralLent => "Insufficient collateral lent"@,
            BorrowError::LoanAlreadyExists => "Loan already exists"@,
            BorrowError::NotEnoughLiquidity => "Not enough liquidity in the pool"@,
            BorrowError::CollateralMustBe2xBorrowAmount => "Collateral must be 2x borrow amount"@,
        }
    }

    /// The message that goes with the error, for a client to show.
    pub fn message(&self) -> (r: &'static str)
        ensures
            r@ == self.message_text(),
    {
        match self {
            BorrowError::BorrowAmountMustBeGreaterThanZero => "Borrow amount must be greater than zero",
            BorrowError::InvalidBorrowToken => "Invalid borrow token",
            BorrowError::InvalidCollateralToken => "Invalid collateral token",
            BorrowError::InsufficientCollateralLent => "Insufficient collateral lent",
            BorrowError::LoanAlreadyExists => "Loan already exists",
            BorrowError::NotEnoughLiquidity => "Not enough liquidity in the pool",
            BorrowError::CollateralMustBe2xBorrowAmount => "Collateral must be 2x borrow amount",
        }
    }
}

impl WithdrawError {
    /// The text of the message that goes with the error.
    pub open spec fn message_text(self) -> Seq<char> {
        match self {
            WithdrawError::NoAssetsToWithdraw => "No assets to withdraw"@,
            WithdrawError::InsufficientPoolBalance => "Insufficient pool balance"@,
            WithdrawError::InvalidCollateralToken => "Invalid collateral token"@,
        }
    }

    /// The message that goes with the error, for a client to show.
    pub fn message(&self) -> (r: &'static str)
        ensures
            r@ == self.message_text(),
    {
        match self {
            WithdrawError::NoAssetsToWithdraw => "No assets to withdraw",
            WithdrawError::InsufficientPoolBalance => "Insufficient pool balance",
            WithdrawError::InvalidCollateralToken => "Invalid collateral token",
        }
    }
}

impl RepayError {
    /// The text of the message that goes with the error.
    pub open spec fn message_text(self) -> Seq<char> {
        match self {
            RepayError::NoLoanToRepay => "No loan to repay"@,
            RepayError::LoanAlreadyRepaid => "Loan already repaid"@,
            RepayError::NotEnoughCollateralInPool => "Not enough collateral in pool"@,
            RepayError::InvalidCollateralToken => "Invalid collateral token"@,
        }
    }

    /// The message that goes with the error, for a client to show.
    pub fn message(&self) -> (r: &'static str)
        ensures
            r@ == self.message_text(),
    {
        match self {
            RepayError::NoLoanToRepay => "No loan to repay",
            RepayError::LoanAlreadyRepaid => "Loan already repaid",
            RepayError::NotEnoughCollateralInPool => "Not enough collateral in pool",
            RepayError::InvalidCollateralToken => "Invalid collateral token",
        }
    }
}

} // verus!
