//! Minting a service record, and giving one away.

use anchor_lang::prelude::Pubkey;
use vstd::prelude::*;
use crate::error::MarketplaceError;
use crate::events::ServiceNftTransferred;
use crate::state::ServiceNft;

verus! {

/// The records and parties of one call to [`mint_service_nft`].
#[derive(Clone, Debug, PartialEq, Eq)]
pub struct MintServiceNft {
    /// The place of the record to be minted. What it held before is of no
    /// account.
    pub service_nft: ServiceNft,
    /// Who mints the record, and has signed the call.
    pub vendor: Pubkey,
}

impl MintServiceNft {
    /// The record that [`mint_service_nft`] creates: the vendor is its first
    /// owner.
    pub open spec fn minted(
        self,
        metadata: String,
        price: u64,
        is_soulbound: bool,
        royalty_rate: u8,
    ) -> ServiceNft {
        ServiceNft {
            vendor: self.vendor,
            metadata,
            price,
            is_soulbound,
            owner: self.vendor,
            royalty_rate,
        }
    }
}

/// Mints a service record for the vendor.
///
/// Every value is taken as it comes: no rate and no price is refused, and the
/// call always succeeds.
pub fn mint_service_nft(
    ctx: &mut MintServiceNft,
    metadata: String,
    price: u64,
    is_soulbound: bool,
    royalty_rate: u8,
) -> (r: Result<(), MarketplaceError>)
    ensures
        r == Ok::<(), MarketplaceError>(()),
        *final(ctx) == (MintServiceNft {
            service_nft: old(ctx).minted(metadata, price, is_soulbound, royalty_rate),
            ..*old(ctx)
        }),
{
    ctx.service_nft.vendor = ctx.vendor;
    ctx.service_nft.metadata = metadata;
    ctx.service_nft.price = price;
    ctx.service_nft.is_soulbound = is_soulbound;
    ctx.service_nft.owner = ctx.vendor;
    ctx.service_nft.royalty_rate = royalty_rate;
    Ok(())
}

/// The records and parties of one call to [`transfer_service_nft`].
#[derive(Clone, Debug, PartialEq, Eq)]
pub struct TransferServiceNft {
    /// The record being given away.
    pub service_nft: ServiceNft,
    /// The address under which `service_nft` is stored.
    pub service_nft_key: Pubkey,
    /// Who gives the record away, and has signed the call.
    pub current_owner: Pubkey,
    /// Who receives it.
    pub new_owner: Pubkey,
}

impl TransferServiceNft {
    /// The rule that stands against the transfer, if any. A soulbound record
    /// is refused before ownership is looked at.
    pub open spec fn refusal(self) -> Option<MarketplaceError> {
        if self.service_nft.is_soulbound {
            Some(MarketplaceError::SoulboundNonTransferable)
        } else if self.service_nft.owner != self.current_owner {
            Some(MarketplaceError::NotOwner)
        } else {
            None
        }
    }

    /// The report of the transfer.
    pub open spec fn event(self) -> ServiceNftTransferred {
        ServiceNftTransferred {
            service_nft: self.service_nft_key,
            from: self.current_owner,
            to: self.new_owner,
        }
    }

    /// The same records after the transfer: the new owner holds the record.
    pub open spec fn settled(self) -> TransferServiceNft {
        TransferServiceNft { service_nft: self.service_nft.owned_by(self.new_owner), ..self }
    }
}

/// What a transfer leaves behind and answers. A refused transfer changes
/// nothing.
pub open spec fn transfer(ctx: TransferServiceNft) -> (
    TransferServiceNft,
    Result<ServiceNftTransferred, MarketplaceError>,
) {
    match ctx.refusal() {
        Some(rule) => (ctx, Err(rule)),
        None => (ctx.settled(), Ok(ctx.event())),
    }
}

/// Hands the record to a new owner, without payment.
pub fn transfer_service_nft(ctx: &mut TransferServiceNft) -> (r: Result<
    ServiceNftTransferred,
    MarketplaceError,
>)
    ensures
        (*final(ctx), r) == transfer(*old(ctx)),
        r is Err ==> *final(ctx) == *old(ctx),
        old(ctx).service_nft.is_soulbound ==> r is Err,
{
    if ctx.service_nft.is_soulbound {
        return Err(MarketplaceError::SoulboundNonTransferable);
    }
    if ctx.service_nft.owner != ctx.current_owner {
        return Err(MarketplaceError::NotOwner);
    }
    ctx.service_nft.owner = ctx.new_owner;
    Ok(
        ServiceNftTransferred {
            service_nft: ctx.service_nft_key,
            from: ctx.current_owner,
            to: ctx.new_owner,
        },
    )
}

} // verus!
