//! What the marketplace asks of the token ledger.
//!
//! The ledger is not part of this library. An operation that involves money
//! first names the transfers it needs; the caller has the ledger carry them
//! out, in order and as one unit of work, and reports back whether that went
//! through.

use anchor_lang::prelude::Pubkey;
use vstd::prelude::*;

verus! {

/// One movement of tokens between two ledger accounts.
#[derive(Clone, Debug, PartialEq, Eq)]
pub struct Transfer {
    /// The ledger account that pays.
    pub from: Pubkey,
    /// The ledger account that receives.
    pub to: Pubkey,
    /// The principal who signs for `from`.
    pub authority: Pubkey,
    pub amount: u64,
}

} // verus!
