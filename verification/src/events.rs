//! Facts that the marketplace reports for indexers to record.

use anchor_lang::prelude::Pubkey;
use vstd::prelude::*;

verus! {

/// A listing was bought.
#[derive(Clone, Debug, PartialEq, Eq)]
pub struct ServicePurchased {
    pub buyer: Pubkey,
    pub seller: Pubkey,
    /// The address of the record that was on offer.
    pub service_nft: Pubkey,
    pub price: u64,
}

/// A record was given away without payment.
#[derive(Clone, Debug, PartialEq, Eq)]
pub struct ServiceNftTransferred {
    pub service_nft: Pubkey,
    pub from: Pubkey,
    pub to: Pubkey,
}

/// A record was resold, with both royalties paid.
#[derive(Clone, Debug, PartialEq, Eq)]
pub struct ServiceNftResold {
    pub service_nft: Pubkey,
    pub from: Pubkey,
    pub to: Pubkey,
    pub price: u64,
    pub base_royalty: u64,
    pub vendor_royalty: u64,
}

} // verus!
