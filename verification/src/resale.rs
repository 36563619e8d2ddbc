//! Reselling a service record, with a royalty for the marketplace and one for
//! the vendor.
//!
//! A resale costs the buyer the agreed price, in three transfers: the seller's
//! net, the marketplace's royalty, the vendor's royalty. The record changes
//! hands only after the ledger has carried out all three.

use anchor_lang::prelude::Pubkey;
use vstd::prelude::*;
use crate::error::{Failure, MarketplaceError};
use crate::events::ServiceNftResold;
use crate::ledger::Transfer;
use crate::royalty::{royalty_split, split_royalties, RoyaltySplit};
use crate::state::{Marketplace, ServiceNft};

verus! {

/// The records and parties of one resale.
#[derive(Clone, Debug, PartialEq, Eq)]
pub struct ResellServiceNft {
    /// The record being resold.
    pub service_nft: ServiceNft,
    /// The address under which `service_nft` is stored.
    pub service_nft_key: Pubkey,
    /// The registry, read for its base royalty rate.
    pub marketplace: Marketplace,
    /// The seller, who has signed the call.
    pub current_owner: Pubkey,
    /// The buyer, who has signed the call and pays.
    pub buyer: Pubkey,
    /// The party named as vendor by the caller. Not consulted.
    pub vendor: Pubkey,
    pub buyer_token_account: Pubkey,
    pub seller_token_account: Pubkey,
    pub marketplace_token_account: Pubkey,
    pub vendor_token_account: Pubkey,
}

impl ResellServiceNft {
    /// The rule that stands against reselling at `new_price`, if any. A
    /// soulbound record is refused before ownership is looked at, and
    /// ownership before the price.
    pub open spec fn refusal(self, new_price: u64) -> Option<MarketplaceError> {
        if self.service_nft.is_soulbound {
            Some(MarketplaceError::SoulboundNonTransferable)
        } else if self.service_nft.owner != self.current_owner {
            Some(MarketplaceError::NotOwner)
        } else if self.split(new_price) is None {
            Some(MarketplaceError::RoyaltyExceedsPrice)
        } else {
            None
        }
    }

    /// How `new_price` divides at the marketplace's rate and the record's.
    pub open spec fn split(self, new_price: u64) -> Option<RoyaltySplit> {
        royalty_split(new_price, self.marketplace.base_royalty_rate, self.service_nft.royalty_rate)
    }

    /// A payment of `amount` by the buyer into the ledger account `to`.
    pub open spec fn payment_to(self, to: Pubkey, amount: u64) -> Transfer {
        Transfer { from: self.buyer_token_account, to, authority: self.buyer, amount }
    }

    /// The three transfers of a resale that divides as `split`, in the order
    /// in which the ledger is to carry them out.
    pub open spec fn payments(self, split: RoyaltySplit) -> Seq<Transfer> {
        seq![
            self.payment_to(self.seller_token_account, split.net_to_seller),
            self.payment_to(self.marketplace_token_account, split.base_royalty),
            self.payment_to(self.vendor_token_account, split.vendor_royalty),
        ]
    }

    /// The report of a resale at `new_price` that divides as `split`.
    pub open spec fn event(self, new_price: u64, split: RoyaltySplit) -> ServiceNftResold {
        ServiceNftResold {
            service_nft: self.service_nft_key,
            from: self.current_owner,
            to: self.buyer,
            price: new_price,
            base_royalty: split.base_royalty,
            vendor_royalty: split.vendor_royalty,
        }
    }

    /// The same records after the resale: the buyer owns the record.
    pub open spec fn settled(self) -> ResellServiceNft {
        ResellServiceNft { service_nft: self.service_nft.owned_by(self.buyer), ..self }
    }
}

/// What a resale at `new_price` asks of the ledger: the three transfers in
/// order, or the rule that stands against the resale.
pub open spec fn resale_request(ctx: ResellServiceNft, new_price: u64) -> Result<
    Seq<Transfer>,
    MarketplaceError,
> {
    match ctx.refusal(new_price) {
        Some(rule) => Err(rule),
        None => Ok(ctx.payments(ctx.split(new_price)->0)),
    }
}

/// What a resale at `new_price` leaves behind and answers, given the ledger's
/// answer to the transfers of [`resale_request`].
///
/// A refused resale changes nothing, whatever the ledger said. A payment that
/// the ledger refused changes nothing either, and its report is handed back as
/// it came.
pub open spec fn resale<E>(ctx: ResellServiceNft, new_price: u64, payment: Result<(), E>) -> (
    ResellServiceNft,
    Result<ServiceNftResold, Failure<E>>,
) {
    match ctx.refusal(new_price) {
        Some(rule) => (ctx, Err(Failure::Rejected(rule))),
        None => match payment {
            Err(report) => (ctx, Err(Failure::Ledger(report))),
            Ok(_) => (ctx.settled(), Ok(ctx.event(new_price, ctx.split(new_price)->0))),
        },
    }
}

/// Checks the rules for a resale and divides the price.
fn check_resale(ctx: &ResellServiceNft, new_price: u64) -> (r: Result<
    RoyaltySplit,
    MarketplaceError,
>)
    ensures
        match r {
            Ok(split) => ctx.refusal(new_price) is None && ctx.split(new_price) == Some(split),
            Err(rule) => ctx.refusal(new_price) == Some(rule),
        },
{
    if ctx.service_nft.is_soulbound {
        return Err(MarketplaceError::SoulboundNonTransferable);
    }
    if ctx.service_nft.owner != ctx.current_owner {
        return Err(MarketplaceError::NotOwner);
    }
    match split_royalties(
        new_price,
        ctx.marketplace.base_royalty_rate,
        ctx.service_nft.royalty_rate,
    ) {
        Some(split) => Ok(split),
        None => Err(MarketplaceError::RoyaltyExceedsPrice),
    }
}

/// Names the transfers that a resale at `new_price` needs, in the order in
/// which the ledger is to carry them out: to the seller, to the marketplace,
/// to the vendor. The buyer pays all three.
///
/// Nothing is changed. Where the resale is against the rules, no transfer is
/// named.
pub fn resale_payments(ctx: &ResellServiceNft, new_price: u64) -> (r: Result<
    Vec<Transfer>,
    MarketplaceError,
>)
    ensures
        match r {
            Ok(transfers) => resale_request(*ctx, new_price) == Ok::<
                Seq<Transfer>,
                MarketplaceError,
            >(transfers@),
            Err(rule) => resale_request(*ctx, new_price) == Err::<Seq<Transfer>, MarketplaceError>(
                rule,
            ),
        },
{
    let split = match check_resale(ctx, new_price) {
        Ok(split) => split,
        Err(rule) => {
            return Err(rule);
        },
    };
    let mut transfers: Vec<Transfer> = Vec::new();
    transfers.push(
        Transfer {
            from: ctx.buyer_token_account,
            to: ctx.seller_token_account,
            authority: ctx.buyer,
            amount: split.net_to_seller,
        },
    );
    transfers.push(
        Transfer {
            from: ctx.buyer_token_account,
            to: ctx.marketplace_token_account,
            authority: ctx.buyer,
            amount: split.base_royalty,
        },
    );
    transfers.push(
        Transfer {
            from: ctx.buyer_token_account,
            to: ctx.vendor_token_account,
            authority: ctx.buyer,
            amount: split.vendor_royalty,
        },
    );
    assert(transfers@ =~= ctx.payments(split));
    Ok(transfers)
}

/// Resells the record to the buyer at `new_price`.
///
/// `payment` is the ledger's answer to the transfers that
/// [`resale_payments`] named: `Ok` if it carried out all three, else its
/// report of the one that failed. The record passes to the buyer only on
/// `Ok`; in every other case the records are left as they were.
pub fn resell_service_nft<E>(
    ctx: &mut ResellServiceNft,
    new_price: u64,
    payment: Result<(), E>,
) -> (r: Result<ServiceNftResold, Failure<E>>)
    ensures
        (*final(ctx), r) == resale(*old(ctx), new_price, payment),
        r is Ok <==> old(ctx).refusal(new_price) is None && payment is Ok,
        r is Err ==> *final(ctx) == *old(ctx),
        old(ctx).service_nft.is_soulbound ==> r is Err,
{
    let split = match check_resale(ctx, new_price) {
        Ok(split) => split,
        Err(rule) => {
            return Err(Failure::Rejected(rule));
        },
    };
    match payment {
        Err(report) => Err(Failure::Ledger(report)),
        Ok(_) => {
            ctx.service_nft.owner = ctx.buyer;
            Ok(
                ServiceNftResold {
                    service_nft: ctx.service_nft_key,
                    from: ctx.current_owner,
                    to: ctx.buyer,
                    price: new_price,
                    base_royalty: split.base_royalty,
                    vendor_royalty: split.vendor_royalty,
                },
            )
        },
    }
}

} // verus!
