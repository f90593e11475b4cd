//! Accounting engine of a single-pool collateralized lending ledger.
//!
//! Participants deposit an allow-listed token as collateral, borrow another
//! allow-listed token against it, repay, or withdraw what they deposited. The
//! engine keeps three ordered ledgers (deposits per participant and token,
//! liquidity per token, loans per participant and borrowed token) and decides,
//! step by step, which token transfer the host has to carry out next. It never
//! moves tokens itself: every operation hands back a [`Transfer`] and is
//! continued once the host has performed it.

pub mod accounts;
pub mod borrowing;
pub mod errors;
pub mod keys;
pub mod laws;
pub mod ledger;
pub mod lending;
pub mod repayment;
pub mod setup;
pub mod state;
pub mod withdrawal;

pub use accounts::{Borrow, Initialize, Lend, Repay, TokenAccount, Transfer, Withdraw};
pub use borrowing::{borrow, borrow_commit};
pub use errors::{BorrowError, InitializeError, LendError, RepayError, WithdrawError};
pub use lending::{lend, lend_commit, lend_fits};
pub use repayment::{repay, repay_commit, repay_fits, repay_release};
pub use setup::initialize;
pub use state::{Borrower, LendingPool};
pub use withdrawal::{withdraw, withdraw_commit};
