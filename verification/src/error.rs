//! Why an operation of the marketplace is refused.

use vstd::prelude::*;

verus! {

/// A rule of the marketplace that a call did not meet.
#[derive(Clone, Copy, Debug, PartialEq, Eq, Structural)]
pub enum MarketplaceError {
    /// A vendor name longer than [`crate::registry::MAX_NAME_LEN`] characters.
    NameTooLong,
    /// A vendor description longer than
    /// [`crate::registry::MAX_DESCRIPTION_LEN`] characters.
    DescriptionTooLong,
    /// The acting principal does not own the service record.
    NotOwner,
    /// The listing has already been sold.
    ListingNotActive,
    /// The buyer cannot cover the price. The marketplace itself never raises
    /// this: the ledger decides, and its answer is passed on as
    /// [`Failure::Ledger`].
    InsufficientFunds,
    /// The service record can never change hands.
    SoulboundNonTransferable,
    /// The two royalties of a resale add up to more than the sale price, so
    /// nothing would be left to settle with the seller.
    RoyaltyExceedsPrice,
    /// The record is on offer already: its listing has not been sold yet.
    ListingAlreadyActive,
}

impl MarketplaceError {
    /// The text of [`MarketplaceError::message`].
    pub open spec fn message_text(self) -> Seq<char> {
        match self {
            MarketplaceError::NameTooLong => "Name must be 50 characters or less"@,
            MarketplaceError::DescriptionTooLong => "Description must be 100 characters or less"@,
            MarketplaceError::NotOwner => "Only the owner can perform this action"@,
            MarketplaceError::ListingNotActive => "The listing is not active"@,
            MarketplaceError::InsufficientFunds => "Insufficient funds to purchase the service"@,
            MarketplaceError::SoulboundNonTransferable => "Soulbound NFTs cannot be transferred"@,
            MarketplaceError::RoyaltyExceedsPrice => "Royalties exceed the sale price"@,
            MarketplaceError::ListingAlreadyActive => "The service is already listed"@,
        }
    }

    /// A sentence for the person whose call was refused.
    pub fn message(&self) -> (text: &'static str)
        ensures
            text@ == self.message_text(),
    {
        match self {
            MarketplaceError::NameTooLong => "Name must be 50 characters or less",
            MarketplaceError::DescriptionTooLong => "Description must be 100 characters or less",
            MarketplaceError::NotOwner => "Only the owner can perform this action",
            MarketplaceError::ListingNotActive => "The listing is not active",
            MarketplaceError::InsufficientFunds => "Insufficient funds to purchase the service",
            MarketplaceError::SoulboundNonTransferable => "Soulbound NFTs cannot be transferred",
            MarketplaceError::RoyaltyExceedsPrice => "Royalties exceed the sale price",
            MarketplaceError::ListingAlreadyActive => "The service is already listed",
        }
    }
}

/// Why a paid operation did not go through: the marketplace refused it, or
/// the ledger refused the payment. `E` is whatever the ledger reports; it is
/// handed back untouched.
#[derive(Clone, Debug, PartialEq, Eq)]
pub enum Failure<E> {
    /// A rule of the marketplace was not met. No payment is owed.
    Rejected(MarketplaceError),
    /// The ledger refused a payment, with its own report.
    Ledger(E),
}

} // verus!
