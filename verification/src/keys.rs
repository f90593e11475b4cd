//! Account addresses.
//!
//! Participants, tokens and custody accounts are all named by a `Pubkey`. The
//! engine stores addresses and compares them; it never looks inside one.

use vstd::prelude::*;

verus! {

/// Trusted: `Pubkey`, the 32-byte account address of `anchor_lang`. It is
/// taken as a value that can be copied and compared, and nothing is claimed of
/// what it holds.
#[verifier::external_type_specification]
#[verifier::external_body]
pub struct ExPubkey(anchor_lang::prelude::Pubkey);

/// Trusted: `Pubkey`'s `==`, which compares the 32 bytes of the two addresses.
/// The contract claims that it answers `true` exactly when both are the same
/// address.
#[verifier::external_body]
pub(crate) fn same_key(a: &anchor_lang::prelude::Pubkey, b: &anchor_lang::prelude::Pubkey) -> (r:
    bool)
    ensures
        r == (*a == *b),
{
    a == b
}

/// Whether `key` stands on the list `keys`.
pub fn contains_key(keys: &Vec<anchor_lang::prelude::Pubkey>, key: anchor_lang::prelude::Pubkey) -> (r:
    bool)
    ensures
        r == keys@.contains(key),
{
    let mut i: usize = 0;
    while i < keys.len()
        invariant
            i <= keys.len(),
            forall|j: int| 0 <= j < i ==> keys@[j] != key,
        decreases keys.len() - i,
    {
        if same_key(&keys[i], &key) {
            return true;
        }
        i += 1;
    }
    false
}

} // verus!
