//! One-time configuration of the pool.

use vstd::prelude::*;
use anchor_lang::prelude::Pubkey;
use crate::accounts::Initialize;
use crate::errors::InitializeError;
use crate::state::{LendingPool, PoolState};

verus! {

/// The pool after it was configured: the two token lists and the custody
/// account are taken over, the ledgers stay as they are.
pub open spec fn initialized(
    p: PoolState,
    borrow_tokens: Seq<Pubkey>,
    collateral_tokens: Seq<Pubkey>,
    pool_token_account: Pubkey,
) -> PoolState {
    PoolState {
        is_initialized: true,
        pool_token_account,
        borrow_tokens,
        collateral_tokens,
        ..p
    }
}

/// Configures the pool with the tokens that may be borrowed, the tokens that
/// may be deposited, and its custody account. A pool is configured once: a
/// second call fails and changes nothing.
pub fn initialize(
    pool: &mut LendingPool,
    _ctx: &Initialize,
    borrow_tokens: Vec<Pubkey>,
    collateral_tokens: Vec<Pubkey>,
    pool_token_account: Pubkey,
) -> (r: Result<(), InitializeError>)
    ensures
        old(pool)@.is_initialized ==> r == Err::<(), InitializeError>(
            InitializeError::PoolAlreadyInitialized,
        ) && final(pool)@ == old(pool)@,
        !old(pool)@.is_initialized ==> r is Ok && final(pool)@ == initialized(
            old(pool)@,
            borrow_tokens@,
            collateral_tokens@,
            pool_token_account,
        ),
{
    if pool.is_initialized {
        return Err(InitializeError::PoolAlreadyInitialized);
    }
    pool.borrow_tokens = borrow_tokens;
    pool.collateral_tokens = collateral_tokens;
    pool.pool_token_account = pool_token_account;
    pool.is_initialized = true;
    Ok(())
}

} // verus!
