//! The three ordered ledgers.
//!
//! Each ledger is a sequence of entries that is scanned from the front. The
//! first entry with a matching key is the one that counts; later entries with
//! the same key are never reached. Entries are added and changed, never
//! removed: an entry whose amount has dropped to zero stays where it is and
//! takes the next deposit under its key.

use vstd::prelude::*;
use anchor_lang::prelude::Pubkey;
use crate::keys::same_key;
use crate::state::Borrower;

verus! {

// ---------------------------------------------------------------------------
// Deposits: (participant, token, amount)
// ---------------------------------------------------------------------------
/// The position of the first deposit entry of `who` in `token` at or after
/// position `i`.
pub open spec fn lender_slot_from(
    s: Seq<(Pubkey, Pubkey, u64)>,
    who: Pubkey,
    token: Pubkey,
    i: int,
) -> Option<int>
    decreases s.len() - i,
{
    if i < 0 || i >= s.len() {
        None
    } else if s[i].0 == who && s[i].1 == token {
        Some(i)
    } else {
        lender_slot_from(s, who, token, i + 1)
    }
}

/// The position of the first deposit entry of `who` in `token`.
pub open spec fn lender_slot(s: Seq<(Pubkey, Pubkey, u64)>, who: Pubkey, token: Pubkey) -> Option<
    int,
> {
    lender_slot_from(s, who, token, 0)
}

/// What `who` has deposited of `token` and not set aside, as the ledger finds
/// it.
pub open spec fn lent(s: Seq<(Pubkey, Pubkey, u64)>, who: Pubkey, token: Pubkey) -> Option<u64> {
    match lender_slot(s, who, token) {
        Some(i) => Some(s[i].2),
        None => None,
    }
}

/// The deposits with the entry that counts for `who` and `token` set to
/// `amount`; unchanged where there is none.
pub open spec fn lenders_with(
    s: Seq<(Pubkey, Pubkey, u64)>,
    who: Pubkey,
    token: Pubkey,
    amount: u64,
) -> Seq<(Pubkey, Pubkey, u64)> {
    match lender_slot(s, who, token) {
        Some(i) => s.update(i, (who, token, amount)),
        None => s,
    }
}

/// The deposits after `amount` was added for `who` and `token`: onto the entry
/// that counts, or as a new last entry.
pub open spec fn lenders_credited(
    s: Seq<(Pubkey, Pubkey, u64)>,
    who: Pubkey,
    token: Pubkey,
    amount: u64,
) -> Seq<(Pubkey, Pubkey, u64)> {
    match lender_slot(s, who, token) {
        Some(i) => s.update(i, (who, token, (s[i].2 + amount) as u64)),
        None => s.push((who, token, amount)),
    }
}

// ---------------------------------------------------------------------------
// Liquidity: (token, amount)
// ---------------------------------------------------------------------------
/// The position of the first liquidity entry of `token` at or after position
/// `i`.
pub open spec fn liquidity_slot_from(s: Seq<(Pubkey, u64)>, token: Pubkey, i: int) -> Option<int>
    decreases s.len() - i,
{
    if i < 0 || i >= s.len() {
        None
    } else if s[i].0 == token {
        Some(i)
    } else {
        liquidity_slot_from(s, token, i + 1)
    }
}

/// The position of the first liquidity entry of `token`.
pub open spec fn liquidity_slot(s: Seq<(Pubkey, u64)>, token: Pubkey) -> Option<int> {
    liquidity_slot_from(s, token, 0)
}

/// What the pool accounts for of `token`, as the ledger finds it.
pub open spec fn liquidity(s: Seq<(Pubkey, u64)>, token: Pubkey) -> Option<u64> {
    match liquidity_slot(s, token) {
        Some(i) => Some(s[i].1),
        None => None,
    }
}

/// The liquidity with the entry that counts for `token` set to `amount`;
/// unchanged where there is none.
pub open spec fn liquidity_with(s: Seq<(Pubkey, u64)>, token: Pubkey, amount: u64) -> Seq<
    (Pubkey, u64),
> {
    match liquidity_slot(s, token) {
        Some(i) => s.update(i, (token, amount)),
        None => s,
    }
}

/// The liquidity after `amount` was added for `token`: onto the entry that
/// counts, or as a new last entry.
pub open spec fn liquidity_credited(s: Seq<(Pubkey, u64)>, token: Pubkey, amount: u64) -> Seq<
    (Pubkey, u64),
> {
    match liquidity_slot(s, token) {
        Some(i) => s.update(i, (token, (s[i].1 + amount) as u64)),
        None => s.push((token, amount)),
    }
}

/// The sum of all liquidity entries.
pub open spec fn total_liquidity(s: Seq<(Pubkey, u64)>) -> int
    decreases s.len(),
{
    if s.len() == 0 {
        0
    } else {
        total_liquidity(s.drop_last()) + s.last().1
    }
}

// ---------------------------------------------------------------------------
// Loans: (participant, borrowed token, loan)
// ---------------------------------------------------------------------------
/// The position of the first loan entry of `who` in `token` at or after
/// position `i`.
pub open spec fn loan_slot_from(
    s: Seq<(Pubkey, Pubkey, Borrower)>,
    who: Pubkey,
    token: Pubkey,
    i: int,
) -> Option<int>
    decreases s.len() - i,
{
    if i < 0 || i >= s.len() {
        None
    } else if s[i].0 == who && s[i].1 == token {
        Some(i)
    } else {
        loan_slot_from(s, who, token, i + 1)
    }
}

/// The first loan of `who` in `token`, repaid or not.
pub open spec fn first_loan(s: Seq<(Pubkey, Pubkey, Borrower)>, who: Pubkey, token: Pubkey) -> Option<
    Borrower,
> {
    match loan_slot_from(s, who, token, 0) {
        Some(i) => Some(s[i].2),
        None => None,
    }
}

/// Whether any loan of `who` in `token`, first or not, is not marked as
/// repaid.
pub open spec fn has_active_loan(s: Seq<(Pubkey, Pubkey, Borrower)>, who: Pubkey, token: Pubkey) -> bool {
    exists|i: int|
        0 <= i < s.len() && (#[trigger] s[i]).0 == who && s[i].1 == token && !s[i].2.has_repaid
}

// ---------------------------------------------------------------------------
// Lookups
// ---------------------------------------------------------------------------
/// Finds the deposit entry that counts for `who` and `token`.
pub fn find_lender(v: &Vec<(Pubkey, Pubkey, u64)>, who: Pubkey, token: Pubkey) -> (r: Option<usize>)
    ensures
        match r {
            Some(i) => lender_slot(v@, who, token) == Some(i as int) && i < v.len(),
            None => lender_slot(v@, who, token) is None,
        },
{
    let mut i: usize = 0;
    while i < v.len()
        invariant
            i <= v.len(),
            lender_slot(v@, who, token) == lender_slot_from(v@, who, token, i as int),
        decreases v.len() - i,
    {
        if same_key(&v[i].0, &who) && same_key(&v[i].1, &token) {
            return Some(i);
        }
        i += 1;
    }
    None
}

/// Finds the liquidity entry that counts for `token`.
pub fn find_liquidity(v: &Vec<(Pubkey, u64)>, token: Pubkey) -> (r: Option<usize>)
    ensures
        match r {
            Some(i) => liquidity_slot(v@, token) == Some(i as int) && i < v.len(),
            None => liquidity_slot(v@, token) is None,
        },
{
    let mut i: usize = 0;
    while i < v.len()
        invariant
            i <= v.len(),
            liquidity_slot(v@, token) == liquidity_slot_from(v@, token, i as int),
        decreases v.len() - i,
    {
        if same_key(&v[i].0, &token) {
            return Some(i);
        }
        i += 1;
    }
    None
}

/// Finds the first loan of `who` in `token`.
pub fn find_loan(v: &Vec<(Pubkey, Pubkey, Borrower)>, who: Pubkey, token: Pubkey) -> (r: Option<
    Borrower,
>)
    ensures
        r == first_loan(v@, who, token),
{
    let mut i: usize = 0;
    while i < v.len()
        invariant
            i <= v.len(),
            loan_slot_from(v@, who, token, 0) == loan_slot_from(v@, who, token, i as int),
        decreases v.len() - i,
    {
        if same_key(&v[i].0, &who) && same_key(&v[i].1, &token) {
            return Some(v[i].2);
        }
        i += 1;
    }
    None
}

/// Scans all loans of `who` in `token` for one that is not marked as repaid.
pub fn any_active_loan(v: &Vec<(Pubkey, Pubkey, Borrower)>, who: Pubkey, token: Pubkey) -> (r: bool)
    ensures
        r == has_active_loan(v@, who, token),
{
    let mut i: usize = 0;
    while i < v.len()
        invariant
            i <= v.len(),
            forall|j: int|
                0 <= j < i ==> !((#[trigger] v@[j]).0 == who && v@[j].1 == token
                    && !v@[j].2.has_repaid),
        decreases v.len() - i,
    {
        if same_key(&v[i].0, &who) && same_key(&v[i].1, &token) && !v[i].2.has_repaid {
            return true;
        }
        i += 1;
    }
    false
}

/// What `who` has deposited of `token`, if the ledger has an entry for it.
pub fn lent_amount(v: &Vec<(Pubkey, Pubkey, u64)>, who: Pubkey, token: Pubkey) -> (r: Option<u64>)
    ensures
        r == lent(v@, who, token),
{
    match find_lender(v, who, token) {
        Some(i) => Some(v[i].2),
        None => None,
    }
}

/// What the pool accounts for of `token`, if the ledger has an entry for it.
pub fn liquidity_amount(v: &Vec<(Pubkey, u64)>, token: Pubkey) -> (r: Option<u64>)
    ensures
        r == liquidity(v@, token),
{
    match find_liquidity(v, token) {
        Some(i) => Some(v[i].1),
        None => None,
    }
}

// ---------------------------------------------------------------------------
// Updates
// ---------------------------------------------------------------------------
/// Adds `amount` to what `who` has deposited of `token`, with a new entry if
/// there is none yet.
pub fn credit_lender(v: &mut Vec<(Pubkey, Pubkey, u64)>, who: Pubkey, token: Pubkey, amount: u64)
    requires
        match lent(old(v)@, who, token) {
            Some(a) => a + amount <= u64::MAX,
            None => true,
        },
    ensures
        final(v)@ == lenders_credited(old(v)@, who, token, amount),
{
    match find_lender(v, who, token) {
        Some(i) => {
            let entry = v[i];
            v.set(i, (who, token, entry.2 + amount));
        },
        None => {
            v.push((who, token, amount));
        },
    }
}

/// Sets what `who` has deposited of `token` to `amount`. The caller has
/// checked that the amount is covered; without an entry nothing changes.
pub fn set_lender(v: &mut Vec<(Pubkey, Pubkey, u64)>, who: Pubkey, token: Pubkey, amount: u64)
    ensures
        final(v)@ == lenders_with(old(v)@, who, token, amount),
{
    match find_lender(v, who, token) {
        Some(i) => {
            v.set(i, (who, token, amount));
        },
        None => {},
    }
}

/// Adds `amount` to what the pool accounts for of `token`, with a new entry if
/// there is none yet.
pub fn credit_liquidity(v: &mut Vec<(Pubkey, u64)>, token: Pubkey, amount: u64)
    requires
        match liquidity(old(v)@, token) {
            Some(a) => a + amount <= u64::MAX,
            None => true,
        },
    ensures
        final(v)@ == liquidity_credited(old(v)@, token, amount),
{
    match find_liquidity(v, token) {
        Some(i) => {
            let entry = v[i];
            v.set(i, (token, entry.1 + amount));
        },
        None => {
            v.push((token, amount));
        },
    }
}

/// Sets what the pool accounts for of `token` to `amount`. The caller has
/// checked that the amount is covered; without an entry nothing changes.
pub fn set_liquidity(v: &mut Vec<(Pubkey, u64)>, token: Pubkey, amount: u64)
    ensures
        final(v)@ == liquidity_with(old(v)@, token, amount),
{
    match find_liquidity(v, token) {
        Some(i) => {
            v.set(i, (token, amount));
        },
        None => {},
    }
}

// ---------------------------------------------------------------------------
// Facts
// ---------------------------------------------------------------------------
/// A deposit lookup from position `i` answers with the first position at or
/// after `i` whose entry has the key, and with none only if there is no such
/// entry.
pub proof fn lemma_lender_slot_is_first(
    s: Seq<(Pubkey, Pubkey, u64)>,
    who: Pubkey,
    token: Pubkey,
    i: int,
)
    requires
        0 <= i,
    ensures
        match lender_slot_from(s, who, token, i) {
            Some(k) => i <= k < s.len() && s[k].0 == who && s[k].1 == token && forall|j: int|
                i <= j < k ==> !((#[trigger] s[j]).0 == who && s[j].1 == token),
            None => forall|j: int|
                i <= j < s.len() ==> !((#[trigger] s[j]).0 == who && s[j].1 == token),
        },
    decreases s.len() - i,
{
    if i < s.len() && !(s[i].0 == who && s[i].1 == token) {
        lemma_lender_slot_is_first(s, who, token, i + 1);
    }
}

/// A liquidity lookup from position `i` answers with the first position at or
/// after `i` whose entry has the token, and with none only if there is no such
/// entry.
pub proof fn lemma_liquidity_slot_is_first(s: Seq<(Pubkey, u64)>, token: Pubkey, i: int)
    requires
        0 <= i,
    ensures
        match liquidity_slot_from(s, token, i) {
            Some(k) => i <= k < s.len() && s[k].0 == token && forall|j: int|
                i <= j < k ==> (#[trigger] s[j]).0 != token,
            None => forall|j: int| i <= j < s.len() ==> (#[trigger] s[j]).0 != token,
        },
    decreases s.len() - i,
{
    if i < s.len() && s[i].0 != token {
        lemma_liquidity_slot_is_first(s, token, i + 1);
    }
}

/// Two deposit ledgers with the same keys at the same positions answer every
/// lookup with the same position.
pub proof fn lemma_lender_slot_by_keys(
    s: Seq<(Pubkey, Pubkey, u64)>,
    t: Seq<(Pubkey, Pubkey, u64)>,
    who: Pubkey,
    token: Pubkey,
    i: int,
)
    requires
        s.len() == t.len(),
        forall|j: int| 0 <= j < s.len() ==> s[j].0 == t[j].0 && s[j].1 == t[j].1,
    ensures
        lender_slot_from(s, who, token, i) == lender_slot_from(t, who, token, i),
    decreases s.len() - i,
{
    if 0 <= i < s.len() && !(s[i].0 == who && s[i].1 == token) {
        lemma_lender_slot_by_keys(s, t, who, token, i + 1);
    }
}

/// Two liquidity ledgers with the same tokens at the same positions answer
/// every lookup with the same position.
pub proof fn lemma_liquidity_slot_by_keys(
    s: Seq<(Pubkey, u64)>,
    t: Seq<(Pubkey, u64)>,
    token: Pubkey,
    i: int,
)
    requires
        s.len() == t.len(),
        forall|j: int| 0 <= j < s.len() ==> s[j].0 == t[j].0,
    ensures
        liquidity_slot_from(s, token, i) == liquidity_slot_from(t, token, i),
    decreases s.len() - i,
{
    if 0 <= i < s.len() && s[i].0 != token {
        lemma_liquidity_slot_by_keys(s, t, token, i + 1);
    }
}

/// Setting the amount under one key is seen by a lookup of that key and by no
/// lookup of another.
pub proof fn lemma_lent_after_with(
    s: Seq<(Pubkey, Pubkey, u64)>,
    who: Pubkey,
    token: Pubkey,
    amount: u64,
    other: Pubkey,
    other_token: Pubkey,
)
    ensures
        lent(s, who, token) is Some ==> lent(lenders_with(s, who, token, amount), who, token)
            == Some(amount),
        !(other == who && other_token == token) ==> lent(
            lenders_with(s, who, token, amount),
            other,
            other_token,
        ) == lent(s, other, other_token),
{
    let t = lenders_with(s, who, token, amount);
    lemma_lender_slot_is_first(s, who, token, 0);
    lemma_lender_slot_is_first(s, other, other_token, 0);
    lemma_lender_slot_by_keys(s, t, who, token, 0);
    lemma_lender_slot_by_keys(s, t, other, other_token, 0);
}

/// Setting the amount under one token is seen by a lookup of that token and by
/// no lookup of another.
pub proof fn lemma_liquidity_after_with(
    s: Seq<(Pubkey, u64)>,
    token: Pubkey,
    amount: u64,
    other: Pubkey,
)
    ensures
        liquidity(s, token) is Some ==> liquidity(liquidity_with(s, token, amount), token) == Some(
            amount,
        ),
        other != token ==> liquidity(liquidity_with(s, token, amount), other) == liquidity(
            s,
            other,
        ),
{
    let t = liquidity_with(s, token, amount);
    lemma_liquidity_slot_is_first(s, token, 0);
    lemma_liquidity_slot_is_first(s, other, 0);
    lemma_liquidity_slot_by_keys(s, t, token, 0);
    lemma_liquidity_slot_by_keys(s, t, other, 0);
}

/// A new last entry adds its amount to the total.
pub proof fn lemma_total_after_push(s: Seq<(Pubkey, u64)>, entry: (Pubkey, u64))
    ensures
        total_liquidity(s.push(entry)) == total_liquidity(s) + entry.1,
{
    assert(s.push(entry).drop_last() =~= s);
}

/// Replacing an entry changes the total by the difference of the two amounts.
pub proof fn lemma_total_after_update(s: Seq<(Pubkey, u64)>, i: int, entry: (Pubkey, u64))
    requires
        0 <= i < s.len(),
    ensures
        total_liquidity(s.update(i, entry)) == total_liquidity(s) - s[i].1 + entry.1,
    decreases s.len(),
{
    let t = s.update(i, entry);
    if i == s.len() - 1 {
        assert(t.drop_last() =~= s.drop_last());
    } else {
        lemma_total_after_update(s.drop_last(), i, entry);
        assert(t.drop_last() =~= s.drop_last().update(i, entry));
    }
}

/// Setting the amount under a token changes the total by the difference to
/// what the entry held.
pub proof fn lemma_total_after_with(s: Seq<(Pubkey, u64)>, token: Pubkey, amount: u64)
    ensures
        total_liquidity(liquidity_with(s, token, amount)) == match liquidity(s, token) {
            Some(a) => total_liquidity(s) - a + amount,
            None => total_liquidity(s),
        },
{
    lemma_liquidity_slot_is_first(s, token, 0);
    match liquidity_slot(s, token) {
        Some(i) => {
            lemma_total_after_update(s, i, (token, amount));
        },
        None => {},
    }
}

/// Adding an amount under a token adds it to the total, as long as the
/// entry's amount stays in range.
pub proof fn lemma_total_after_credit(s: Seq<(Pubkey, u64)>, token: Pubkey, amount: u64)
    requires
        match liquidity(s, token) {
            Some(a) => a + amount <= u64::MAX,
            None => true,
        },
    ensures
        total_liquidity(liquidity_credited(s, token, amount)) == total_liquidity(s) + amount,
{
    lemma_liquidity_slot_is_first(s, token, 0);
    match liquidity_slot(s, token) {
        Some(i) => {
            lemma_total_after_update(s, i, (token, (s[i].1 + amount) as u64));
        },
        None => {
            lemma_total_after_push(s, (token, amount));
        },
    }
}

} // verus!
