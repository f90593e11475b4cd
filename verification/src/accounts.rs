//! What the host hands to each entry point, and what the engine hands back.
//!
//! The host authenticates signers and resolves accounts before the engine runs.
//! The engine sees only addresses, and of a custody account the token it holds.

use vstd::prelude::*;
use anchor_lang::prelude::Pubkey;

verus! {

/// A custody account: where it lives and which token it holds.
#[derive(Clone, Copy, Debug, PartialEq, Eq)]
pub struct TokenAccount {
    pub address: Pubkey,
    pub mint: Pubkey,
}

/// One movement of tokens that the host has to carry out on the engine's
/// behalf, authorized by `authority`.
#[derive(Clone, Copy, Debug, PartialEq, Eq)]
pub struct Transfer {
    pub from: Pubkey,
    pub to: Pubkey,
    pub authority: Pubkey,
    pub amount: u64,
}

/// The accounts of an `initialize` call.
#[derive(Clone, Copy, Debug, PartialEq, Eq)]
pub struct Initialize {
    pub admin: Pubkey,
}

/// The accounts of a `lend` call.
#[derive(Clone, Copy, Debug, PartialEq, Eq)]
pub struct Lend {
    pub lender: Pubkey,
    pub lender_token_account: TokenAccount,
    pub pool_token_account: TokenAccount,
}

/// The accounts of a `borrow` call.
#[derive(Clone, Copy, Debug, PartialEq, Eq)]
pub struct Borrow {
    pub borrower: Pubkey,
    pub borrower_token_account: TokenAccount,
    pub pool_token_account: TokenAccount,
    pub pool_authority: Pubkey,
}

/// The accounts of a `withdraw` call.
#[derive(Clone, Copy, Debug, PartialEq, Eq)]
pub struct Withdraw {
    pub lender: Pubkey,
    pub lender_token_account: TokenAccount,
    pub pool_token_account: TokenAccount,
    pub pool_authority: Pubkey,
}

/// The accounts of a `repay` call.
#[derive(Clone, Copy, Debug, PartialEq, Eq)]
pub struct Repay {
    pub borrower: Pubkey,
    pub borrower_token_account: TokenAccount,
    pub pool_token_account: TokenAccount,
    pub pool_authority: Pubkey,
}

} // verus!
