//! The records that the marketplace keeps.

use anchor_lang::prelude::Pubkey;
use vstd::prelude::*;

verus! {

/// The registry of one marketplace: who administers it and what share of
/// every resale it takes.
#[derive(Clone, Debug, PartialEq, Eq)]
pub struct Marketplace {
    pub admin: Pubkey,
    /// Percent of a resale price that goes to the marketplace.
    pub base_royalty_rate: u8,
}

/// A registered seller.
#[derive(Clone, Debug, PartialEq, Eq)]
pub struct Vendor {
    pub owner: Pubkey,
    pub name: String,
    pub description: String,
    pub active: bool,
}

/// One minted service entitlement.
#[derive(Clone, Debug, PartialEq, Eq)]
pub struct ServiceNft {
    /// Who minted the record. Receives the vendor royalty of every resale.
    pub vendor: Pubkey,
    pub metadata: String,
    /// The price named at mint time. Sales go by the price of the listing or
    /// of the resale, not by this one.
    pub price: u64,
    /// A soulbound record stays with its first owner for good.
    pub is_soulbound: bool,
    pub owner: Pubkey,
    /// Percent of a resale price that goes to the vendor.
    pub royalty_rate: u8,
}

/// An offer to sell one service record at a fixed price.
#[derive(Clone, Debug, PartialEq, Eq)]
pub struct ServiceListing {
    /// The address of the record on offer.
    pub service_nft: Pubkey,
    /// Who listed the record.
    pub vendor: Pubkey,
    pub price: u64,
    /// `true` from creation until the listing is sold.
    pub is_active: bool,
}

impl ServiceNft {
    /// What a record is after it has passed to `owner`: every other field is
    /// as before.
    pub open spec fn owned_by(self, owner: Pubkey) -> ServiceNft {
        ServiceNft { owner, ..self }
    }
}

impl ServiceListing {
    /// What a listing is once it has been sold.
    pub open spec fn closed(self) -> ServiceListing {
        ServiceListing { is_active: false, ..self }
    }
}

} // verus!
