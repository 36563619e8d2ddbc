//! Addresses of principals, records and ledger accounts.
//!
//! The marketplace never looks inside an address. It stores addresses, hands
//! them on, and asks whether two of them are the same.

use anchor_lang::prelude::Pubkey;
use vstd::prelude::*;

verus! {

/// `anchor_lang::prelude::Pubkey` (defined as `solana_program::pubkey::Pubkey`),
/// the 32-byte address type of the runtime. Its contents are not visible to
/// the proofs: two addresses are either the same value or they are not.
#[verifier::external_type_specification]
#[verifier::external_body]
pub struct ExPubkey(Pubkey);

/// `PartialEq::eq` of `Pubkey`, which that type derives over its 32 bytes.
/// Assumed: the comparison answers `true` exactly when both sides are the same
/// address.
pub assume_specification[ <Pubkey as PartialEq>::eq ](a: &Pubkey, b: &Pubkey) -> (same: bool)
    ensures
        same == (*a == *b),
;

/// `Clone::clone` of `Pubkey`, a `Copy` type. Assumed: the clone is the
/// address it was made from. The records' own `Clone` goes through it for
/// every address they hold.
pub assume_specification[ <Pubkey as Clone>::clone ](key: &Pubkey) -> (copy: Pubkey)
    ensures
        copy == *key,
;

} // verus!
