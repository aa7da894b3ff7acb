//! Identities: the public keys by which the host names the parties to an
//! instruction.
//!
//! A key is carried through the store unread. The one thing the store asks of
//! two keys is whether they are the same.

use anchor_lang::prelude::Pubkey;
use vstd::prelude::*;

verus! {

/// `solana_program::pubkey::Pubkey`, which `anchor_lang::prelude` re-exports:
/// a 32-byte public key. The store sees nothing inside it.
#[verifier::external_type_specification]
#[verifier::external_body]
pub struct ExPubkey(Pubkey);

/// Whether two keys are the same key.
///
/// Calls `==` of `Pubkey`, which that type derives: it compares the 32 bytes
/// that are a key's only field. The contract claims that it returns `true`
/// exactly for equal keys.
#[verifier::external_body]
pub(crate) fn same_key(a: &Pubkey, b: &Pubkey) -> (same: bool)
    ensures
        same == (*a == *b),
{
    a == b
}

} // verus!
