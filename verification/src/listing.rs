//! Offering a service record for sale, and buying it.
//!
//! A listing is created active and is closed by the one purchase that goes
//! through. It is never opened again: a later sale needs a listing of its own.

use anchor_lang::prelude::Pubkey;
use vstd::prelude::*;
use crate::error::{Failure, MarketplaceError};
use crate::events::ServicePurchased;
use crate::ledger::Transfer;
use crate::state::{ServiceListing, ServiceNft};

verus! {

/// The records and parties of one call to [`list_service`].
#[derive(Clone, Debug, PartialEq, Eq)]
pub struct ListService {
    /// The place where the listing of this record is kept. A record has one
    /// such place; it may still hold an earlier listing of the record.
    pub service_listing: ServiceListing,
    /// The record to be offered.
    pub service_nft: ServiceNft,
    /// The address under which `service_nft` is stored.
    pub service_nft_key: Pubkey,
    /// Who lists the record, and has signed the call.
    pub vendor: Pubkey,
}

impl ListService {
    /// The rule that stands against the listing, if any. Only the record's
    /// owner may list it, and not while an earlier listing of it is still
    /// open.
    pub open spec fn refusal(self) -> Option<MarketplaceError> {
        if self.service_nft.owner != self.vendor {
            Some(MarketplaceError::NotOwner)
        } else if self.service_listing.is_active {
            Some(MarketplaceError::ListingAlreadyActive)
        } else {
            None
        }
    }

    /// The listing that [`list_service`] creates at `price`.
    pub open spec fn listing(self, price: u64) -> ServiceListing {
        ServiceListing {
            service_nft: self.service_nft_key,
            vendor: self.vendor,
            price,
            is_active: true,
        }
    }
}

/// What listing at `price` leaves behind and answers. A refused listing
/// changes nothing; an accepted one takes the place of the earlier, sold
/// listing. The record itself is not touched either way.
pub open spec fn listed(ctx: ListService, price: u64) -> (ListService, Result<(), MarketplaceError>) {
    match ctx.refusal() {
        Some(rule) => (ctx, Err(rule)),
        None => (ListService { service_listing: ctx.listing(price), ..ctx }, Ok(())),
    }
}

/// Offers the record for sale at `price`.
pub fn list_service(ctx: &mut ListService, price: u64) -> (r: Result<(), MarketplaceError>)
    ensures
        (*final(ctx), r) == listed(*old(ctx), price),
        final(ctx).service_nft == old(ctx).service_nft,
        r is Err ==> *final(ctx) == *old(ctx),
{
    if ctx.service_nft.owner != ctx.vendor {
        return Err(MarketplaceError::NotOwner);
    }
    if ctx.service_listing.is_active {
        return Err(MarketplaceError::ListingAlreadyActive);
    }
    ctx.service_listing.service_nft = ctx.service_nft_key;
    ctx.service_listing.vendor = ctx.vendor;
    ctx.service_listing.price = price;
    ctx.service_listing.is_active = true;
    Ok(())
}

/// The records and parties of one purchase.
#[derive(Clone, Debug, PartialEq, Eq)]
pub struct PurchaseService {
    /// The listing being bought.
    pub service_listing: ServiceListing,
    /// The record on offer.
    pub service_nft: ServiceNft,
    /// The address under which `service_nft` is stored.
    pub service_nft_key: Pubkey,
    /// The buyer, who has signed the call and pays.
    pub buyer: Pubkey,
    /// The party that is paid.
    pub seller: Pubkey,
    pub buyer_token_account: Pubkey,
    pub seller_token_account: Pubkey,
}

impl PurchaseService {
    /// The one transfer of a purchase: the listing's price, from buyer to
    /// seller.
    pub open spec fn payment(self) -> Transfer {
        Transfer {
            from: self.buyer_token_account,
            to: self.seller_token_account,
            authority: self.buyer,
            amount: self.service_listing.price,
        }
    }

    /// The report of the purchase.
    pub open spec fn event(self) -> ServicePurchased {
        ServicePurchased {
            buyer: self.buyer,
            seller: self.seller,
            service_nft: self.service_nft_key,
            price: self.service_listing.price,
        }
    }

    /// The record after the purchase. A soulbound record is paid for and
    /// stays where it is; any other passes to the buyer.
    pub open spec fn record_sold(self) -> ServiceNft {
        if self.service_nft.is_soulbound {
            self.service_nft
        } else {
            self.service_nft.owned_by(self.buyer)
        }
    }

    /// The same records after the purchase: the listing is closed and the
    /// record is as [`PurchaseService::record_sold`] says.
    pub open spec fn settled(self) -> PurchaseService {
        PurchaseService {
            service_listing: self.service_listing.closed(),
            service_nft: self.record_sold(),
            ..self
        }
    }
}

/// What a purchase asks of the ledger: its one transfer, or the rule that
/// stands against the purchase.
pub open spec fn purchase_request(ctx: PurchaseService) -> Result<Transfer, MarketplaceError> {
    if ctx.service_listing.is_active {
        Ok(ctx.payment())
    } else {
        Err(MarketplaceError::ListingNotActive)
    }
}

/// What a purchase leaves behind and answers, given the ledger's answer to
/// the transfer of [`purchase_request`].
///
/// A listing that is not active is refused, whatever the ledger said. A
/// payment that the ledger refused changes nothing, and its report is handed
/// back as it came.
pub open spec fn purchase<E>(ctx: PurchaseService, payment: Result<(), E>) -> (
    PurchaseService,
    Result<ServicePurchased, Failure<E>>,
) {
    if !ctx.service_listing.is_active {
        (ctx, Err(Failure::Rejected(MarketplaceError::ListingNotActive)))
    } else {
        match payment {
            Err(report) => (ctx, Err(Failure::Ledger(report))),
            Ok(_) => (ctx.settled(), Ok(ctx.event())),
        }
    }
}

/// Names the transfer that the purchase needs: the listing's price, from the
/// buyer's ledger account to the seller's.
///
/// Nothing is changed. Where the listing is not active, no transfer is named.
pub fn purchase_payment(ctx: &PurchaseService) -> (r: Result<Transfer, MarketplaceError>)
    ensures
        r == purchase_request(*ctx),
{
    if !ctx.service_listing.is_active {
        return Err(MarketplaceError::ListingNotActive);
    }
    Ok(
        Transfer {
            from: ctx.buyer_token_account,
            to: ctx.seller_token_account,
            authority: ctx.buyer,
            amount: ctx.service_listing.price,
        },
    )
}

/// Buys the listing.
///
/// `payment` is the ledger's answer to the transfer that
/// [`purchase_payment`] named: `Ok` if it was carried out, else the ledger's
/// report. Only on `Ok` is the listing closed and, unless the record is
/// soulbound, the record handed to the buyer; in every other case the records
/// are left as they were.
pub fn purchase_service<E>(ctx: &mut PurchaseService, payment: Result<(), E>) -> (r: Result<
    ServicePurchased,
    Failure<E>,
>)
    ensures
        (*final(ctx), r) == purchase(*old(ctx), payment),
        r is Ok <==> old(ctx).service_listing.is_active && payment is Ok,
        r is Ok ==> !final(ctx).service_listing.is_active,
        r is Err ==> *final(ctx) == *old(ctx),
        old(ctx).service_nft.is_soulbound ==> final(ctx).service_nft == old(ctx).service_nft,
{
    if !ctx.service_listing.is_active {
        return Err(Failure::Rejected(MarketplaceError::ListingNotActive));
    }
    match payment {
        Err(report) => Err(Failure::Ledger(report)),
        Ok(_) => {
            if !ctx.service_nft.is_soulbound {
                ctx.service_nft.owner = ctx.buyer;
            }
            ctx.service_listing.is_active = false;
            Ok(
                ServicePurchased {
                    buyer: ctx.buyer,
                    seller: ctx.seller,
                    service_nft: ctx.service_nft_key,
                    price: ctx.service_listing.price,
                },
            )
        },
    }
}

} // verus!
