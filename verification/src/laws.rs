//! What holds of the marketplace over more than one call.
//!
//! Each law is stated over the same functions that the operations' own
//! contracts are stated over, so it holds of whatever the operations do.

use vstd::prelude::*;
use crate::error::{Failure, MarketplaceError};
use crate::events::{ServiceNftResold, ServicePurchased};
use crate::ledger::Transfer;
use crate::listing::{listed, purchase, purchase_request, ListService, PurchaseService};
use crate::resale::{resale, resale_request, ResellServiceNft};
use crate::royalty::lemma_split_adds_up;
use crate::service::{transfer, TransferServiceNft};
use crate::state::{ServiceListing, ServiceNft};

verus! {

/// One call of an operation that can hand a record to a new owner, with the
/// ledger's answer where the operation involves a payment.
pub enum Call<E> {
    /// A purchase, and what the ledger answered to its payment.
    Purchase(PurchaseService, Result<(), E>),
    /// A transfer without payment.
    Transfer(TransferServiceNft),
    /// A resale at a price, and what the ledger answered to its payments.
    Resale(ResellServiceNft, u64, Result<(), E>),
}

impl<E> Call<E> {
    /// The record that this call leaves behind when it is made on `record`.
    /// Everything else that the call names (parties, listing, registry) is as
    /// the call has it.
    pub open spec fn record_after(self, record: ServiceNft) -> ServiceNft {
        match self {
            Call::Purchase(ctx, payment) => purchase(
                PurchaseService { service_nft: record, ..ctx },
                payment,
            ).0.service_nft,
            Call::Transfer(ctx) => transfer(
                TransferServiceNft { service_nft: record, ..ctx },
            ).0.service_nft,
            Call::Resale(ctx, new_price, payment) => resale(
                ResellServiceNft { service_nft: record, ..ctx },
                new_price,
                payment,
            ).0.service_nft,
        }
    }
}

/// The record that is left when `calls` are made on `record` one after the
/// other.
pub open spec fn record_after_all<E>(record: ServiceNft, calls: Seq<Call<E>>) -> ServiceNft
    decreases calls.len(),
{
    if calls.len() == 0 {
        record
    } else {
        calls.last().record_after(record_after_all(record, calls.drop_last()))
    }
}

/// No purchase, transfer or resale, and no number of them, changes anything
/// of a record but its owner: the vendor, the metadata, the mint price, the
/// royalty rate and whether it is soulbound are fixed at mint.
pub proof fn lemma_only_the_owner_changes<E>(record: ServiceNft, calls: Seq<Call<E>>)
    ensures
        record_after_all(record, calls) == record.owned_by(record_after_all(record, calls).owner),
    decreases calls.len(),
{
    if calls.len() > 0 {
        lemma_only_the_owner_changes(record, calls.drop_last());
    }
}

/// A soulbound record never changes its owner: whatever purchases, transfers
/// and resales are made on it, in whatever number and with whatever answers
/// from the ledger, the record stays exactly as it was.
pub proof fn lemma_soulbound_owner_is_fixed<E>(record: ServiceNft, calls: Seq<Call<E>>)
    requires
        record.is_soulbound,
    ensures
        record_after_all(record, calls).owner == record.owner,
        record_after_all(record, calls) == record,
    decreases calls.len(),
{
    if calls.len() > 0 {
        lemma_soulbound_owner_is_fixed(record, calls.drop_last());
    }
}

/// A listing is sold at most once. Take an open listing and two purchases
/// of it, made one after the other, so that the second finds the listing as
/// the first left it.
///
/// The first goes through exactly when the ledger carries out its payment.
/// If it does, the second is refused with `ListingNotActive`: it names no
/// transfer and changes nothing, whatever the ledger would have answered. So
/// the two never both go through, and with both payments good exactly one
/// does.
pub proof fn lemma_listing_sells_once<E>(
    first: PurchaseService,
    first_payment: Result<(), E>,
    second: PurchaseService,
    second_payment: Result<(), E>,
)
    requires
        first.service_listing.is_active,
        second.service_listing == purchase(first, first_payment).0.service_listing,
    ensures
        purchase(first, first_payment).1 is Ok <==> first_payment is Ok,
        purchase(first, first_payment).1 is Ok ==> {
            &&& purchase_request(second) == Err::<Transfer, MarketplaceError>(
                MarketplaceError::ListingNotActive,
            )
            &&& purchase(second, second_payment) == (
                second,
                Err::<ServicePurchased, Failure<E>>(
                    Failure::Rejected(MarketplaceError::ListingNotActive),
                ),
            )
        },
        !(purchase(first, first_payment).1 is Ok && purchase(second, second_payment).1 is Ok),
        first_payment is Ok && second_payment is Ok ==> purchase(first, first_payment).1 is Ok
            && purchase(second, second_payment).1 is Err,
{
}

/// A purchase goes through exactly when the listing is open and the ledger
/// carries out the payment. It then closes the listing, and no purchase ever
/// opens one: a listing that is open afterwards was open before and has not
/// been sold.
pub proof fn lemma_listing_never_reopens<E>(ctx: PurchaseService, payment: Result<(), E>)
    ensures
        purchase(ctx, payment).1 is Ok <==> ctx.service_listing.is_active && payment is Ok,
        purchase(ctx, payment).1 is Ok ==> !purchase(ctx, payment).0.service_listing.is_active,
        purchase(ctx, payment).0.service_listing.is_active ==> ctx.service_listing.is_active
            && purchase(ctx, payment).1 is Err,
{
}

/// A listing that was accepted is open, is bound to the record it was made
/// for, and names as its vendor the record's owner at that time. The record
/// is not touched by being listed.
pub proof fn lemma_listing_names_the_owner(ctx: ListService, price: u64)
    requires
        listed(ctx, price).1 is Ok,
    ensures
        listed(ctx, price).0.service_listing == (ServiceListing {
            service_nft: ctx.service_nft_key,
            vendor: ctx.service_nft.owner,
            price,
            is_active: true,
        }),
        listed(ctx, price).0.service_nft == ctx.service_nft,
{
}

/// A resale by someone who does not own the record is refused with
/// `NotOwner`: no transfer is named, so no balance moves, and the record and
/// its owner are left as they were, whatever the ledger would have answered.
///
/// This is said of records that can change hands. A soulbound record is
/// refused as soulbound, whoever asks.
pub proof fn lemma_resale_needs_the_owner<E>(
    ctx: ResellServiceNft,
    new_price: u64,
    payment: Result<(), E>,
)
    requires
        !ctx.service_nft.is_soulbound,
        ctx.service_nft.owner != ctx.current_owner,
    ensures
        resale_request(ctx, new_price) == Err::<Seq<Transfer>, MarketplaceError>(
            MarketplaceError::NotOwner,
        ),
        resale(ctx, new_price, payment) == (
            ctx,
            Err::<ServiceNftResold, Failure<E>>(
                Failure::Rejected(MarketplaceError::NotOwner),
            ),
        ),
{
}

/// A resale that is not against the rules costs the buyer exactly the price:
/// it names three transfers, each out of the buyer's ledger account and signed
/// by the buyer, and their amounts add up to `new_price`.
pub proof fn lemma_resale_costs_the_price(ctx: ResellServiceNft, new_price: u64)
    requires
        ctx.refusal(new_price) is None,
    ensures
        resale_request(ctx, new_price) is Ok,
        ({
            let transfers = resale_request(ctx, new_price)->Ok_0;
            &&& transfers.len() == 3
            &&& forall|i: int|
                0 <= i < 3 ==> (#[trigger] transfers[i]).from == ctx.buyer_token_account
                    && transfers[i].authority == ctx.buyer
            &&& transfers[0].to == ctx.seller_token_account
            &&& transfers[1].to == ctx.marketplace_token_account
            &&& transfers[2].to == ctx.vendor_token_account
            &&& transfers[0].amount + transfers[1].amount + transfers[2].amount == new_price
        }),
{
    lemma_split_adds_up(new_price, ctx.marketplace.base_royalty_rate, ctx.service_nft.royalty_rate);
}

} // verus!
