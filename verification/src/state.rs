//! The pool: the one aggregate that every operation reads and changes.

use vstd::prelude::*;
use anchor_lang::prelude::Pubkey;
use crate::keys::contains_key;
use crate::ledger::{lent, liquidity};

verus! {

/// One loan: what was borrowed, and the collateral that was set aside for it.
#[derive(Clone, Copy, Debug, PartialEq, Eq)]
pub struct Borrower {
    pub amount_borrowed: u64,
    pub collateral_amount: u64,
    pub collateral_token: Pubkey,
    pub has_repaid: bool,
}

/// The lending pool.
///
/// The three ledgers are ordered: an entry is found by scanning from the front,
/// the first match wins, and no entry is ever removed.
#[derive(Debug, PartialEq, Eq)]
pub struct LendingPool {
    pub is_initialized: bool,
    /// The pool's custody account.
    pub pool_token_account: Pubkey,
    /// Deposits: participant, token, amount deposited and not set aside.
    pub lenders: Vec<(Pubkey, Pubkey, u64)>,
    /// Loans: participant, borrowed token, loan.
    pub borrowers: Vec<(Pubkey, Pubkey, Borrower)>,
    /// Liquidity: token, amount that the pool accounts for.
    pub total_lending_pool: Vec<(Pubkey, u64)>,
    /// The tokens that may be borrowed.
    pub borrow_tokens: Vec<Pubkey>,
    /// The tokens that may be deposited as collateral.
    pub collateral_tokens: Vec<Pubkey>,
}

/// The pool as a mathematical value: each ledger as a sequence of its entries.
pub struct PoolState {
    pub is_initialized: bool,
    pub pool_token_account: Pubkey,
    pub lenders: Seq<(Pubkey, Pubkey, u64)>,
    pub borrowers: Seq<(Pubkey, Pubkey, Borrower)>,
    pub total_lending_pool: Seq<(Pubkey, u64)>,
    pub borrow_tokens: Seq<Pubkey>,
    pub collateral_tokens: Seq<Pubkey>,
}

impl View for LendingPool {
    type V = PoolState;

    open spec fn view(&self) -> PoolState {
        PoolState {
            is_initialized: self.is_initialized,
            pool_token_account: self.pool_token_account,
            lenders: self.lenders@,
            borrowers: self.borrowers@,
            total_lending_pool: self.total_lending_pool@,
            borrow_tokens: self.borrow_tokens@,
            collateral_tokens: self.collateral_tokens@,
        }
    }
}

impl PoolState {
    /// Whether `who` has at least `amount` of `token` deposited.
    pub open spec fn has_lent(self, who: Pubkey, token: Pubkey, amount: u64) -> bool {
        match lent(self.lenders, who, token) {
            Some(a) => a >= amount,
            None => false,
        }
    }

    /// Whether the pool accounts for at least `amount` of `token`.
    pub open spec fn has_liquidity(self, token: Pubkey, amount: u64) -> bool {
        match liquidity(self.total_lending_pool, token) {
            Some(a) => a >= amount,
            None => false,
        }
    }

    /// Every loan that is not marked as repaid is backed by collateral of more
    /// than twice the borrowed amount.
    pub open spec fn collateral_ratio_holds(self) -> bool {
        forall|i: int|
            0 <= i < self.borrowers.len() && !(#[trigger] self.borrowers[i]).2.has_repaid
                ==> self.borrowers[i].2.collateral_amount > 2 * self.borrowers[i].2.amount_borrowed
    }
}

/// A copy of `v`, entry by entry.
fn copy_of<T: Copy>(v: &Vec<T>) -> (r: Vec<T>)
    ensures
        r@ == v@,
{
    let mut r: Vec<T> = Vec::new();
    let mut i: usize = 0;
    while i < v.len()
        invariant
            i <= v.len(),
            r@ == v@.subrange(0, i as int),
        decreases v.len() - i,
    {
        r.push(v[i]);
        assert(v@.subrange(0, i as int).push(v@[i as int]) =~= v@.subrange(0, i + 1));
        i += 1;
    }
    assert(v@.subrange(0, v@.len() as int) =~= v@);
    r
}

impl Clone for LendingPool {
    /// A second pool with the same configuration and the same ledgers.
    fn clone(&self) -> (r: Self)
        ensures
            r@ == self@,
    {
        LendingPool {
            is_initialized: self.is_initialized,
            pool_token_account: self.pool_token_account,
            lenders: copy_of(&self.lenders),
            borrowers: copy_of(&self.borrowers),
            total_lending_pool: copy_of(&self.total_lending_pool),
            borrow_tokens: copy_of(&self.borrow_tokens),
            collateral_tokens: copy_of(&self.collateral_tokens),
        }
    }
}

impl LendingPool {
    /// A pool that is not configured yet, with empty ledgers and empty token
    /// lists. `pool_token_account` stands in until `initialize` names the
    /// custody account.
    pub fn new(pool_token_account: Pubkey) -> (r: Self)
        ensures
            !r@.is_initialized,
            r@.pool_token_account == pool_token_account,
            r@.lenders.len() == 0,
            r@.borrowers.len() == 0,
            r@.total_lending_pool.len() == 0,
            r@.borrow_tokens.len() == 0,
            r@.collateral_tokens.len() == 0,
            r@.collateral_ratio_holds(),
    {
        LendingPool {
            is_initialized: false,
            pool_token_account,
            lenders: Vec::new(),
            borrowers: Vec::new(),
            total_lending_pool: Vec::new(),
            borrow_tokens: Vec::new(),
            collateral_tokens: Vec::new(),
        }
    }

    /// Whether `token` may be deposited as collateral.
    pub fn is_valid_collateral_token(&self, token: Pubkey) -> (r: bool)
        ensures
            r == self@.collateral_tokens.contains(token),
    {
        contains_key(&self.collateral_tokens, token)
    }

    /// Whether `token` may be borrowed.
    pub fn is_valid_borrow_token(&self, token: Pubkey) -> (r: bool)
        ensures
            r == self@.borrow_tokens.contains(token),
    {
        contains_key(&self.borrow_tokens, token)
    }
}

} // verus!
