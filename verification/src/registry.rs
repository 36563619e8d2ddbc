//! Setting up a marketplace and registering its vendors.

use anchor_lang::prelude::Pubkey;
use vstd::prelude::*;
use vstd::string::StrSliceExecFns;
use crate::error::MarketplaceError;
use crate::state::{Marketplace, Vendor};

verus! {

/// The most characters that a vendor's name may have.
pub const MAX_NAME_LEN: usize = 50;

/// The most characters that a vendor's description may have.
pub const MAX_DESCRIPTION_LEN: usize = 100;

impl Vendor {
    /// Name and description are within their bounds.
    pub open spec fn well_formed(self) -> bool {
        &&& self.name@.len() <= MAX_NAME_LEN
        &&& self.description@.len() <= MAX_DESCRIPTION_LEN
    }
}

/// The records and parties of one call to [`initialize_marketplace`].
#[derive(Clone, Debug, PartialEq, Eq)]
pub struct InitializeMarketplace {
    /// The place of the registry to be created. What it held before is of no
    /// account.
    pub marketplace: Marketplace,
    /// Who administers the marketplace, and has signed the call.
    pub admin: Pubkey,
}

/// Creates the registry of a marketplace.
///
/// The rate is taken as it comes, and the call always succeeds. That a
/// marketplace is set up only once is for whoever stores the registry to see
/// to.
pub fn initialize_marketplace(ctx: &mut InitializeMarketplace, base_royalty_rate: u8) -> (r: Result<
    (),
    MarketplaceError,
>)
    ensures
        r == Ok::<(), MarketplaceError>(()),
        *final(ctx) == (InitializeMarketplace {
            marketplace: Marketplace { admin: old(ctx).admin, base_royalty_rate },
            ..*old(ctx)
        }),
{
    ctx.marketplace.admin = ctx.admin;
    ctx.marketplace.base_royalty_rate = base_royalty_rate;
    Ok(())
}

/// The records and parties of one call to [`register_vendor`].
#[derive(Clone, Debug, PartialEq, Eq)]
pub struct RegisterVendor {
    /// The place of the vendor to be created. What it held before is of no
    /// account.
    pub vendor: Vendor,
    /// Who registers as vendor, and has signed the call.
    pub owner: Pubkey,
}

/// The rule that stands against registering under this name and
/// description, if any. The name is looked at first. Lengths are counted in
/// characters.
pub open spec fn registration_refusal(name: Seq<char>, description: Seq<char>) -> Option<
    MarketplaceError,
> {
    if name.len() > MAX_NAME_LEN {
        Some(MarketplaceError::NameTooLong)
    } else if description.len() > MAX_DESCRIPTION_LEN {
        Some(MarketplaceError::DescriptionTooLong)
    } else {
        None
    }
}

/// What registering leaves behind and answers. A refused registration
/// creates nothing; an accepted one creates an active vendor owned by the
/// caller.
pub open spec fn registered(ctx: RegisterVendor, name: String, description: String) -> (
    RegisterVendor,
    Result<(), MarketplaceError>,
) {
    match registration_refusal(name@, description@) {
        Some(rule) => (ctx, Err(rule)),
        None => (
            RegisterVendor {
                vendor: Vendor { owner: ctx.owner, name, description, active: true },
                ..ctx
            },
            Ok(()),
        ),
    }
}

/// Registers the caller as a vendor.
pub fn register_vendor(ctx: &mut RegisterVendor, name: String, description: String) -> (r: Result<
    (),
    MarketplaceError,
>)
    ensures
        (*final(ctx), r) == registered(*old(ctx), name, description),
        r is Ok <==> name@.len() <= MAX_NAME_LEN && description@.len() <= MAX_DESCRIPTION_LEN,
        r is Ok ==> final(ctx).vendor.well_formed(),
        r is Err ==> *final(ctx) == *old(ctx),
{
    if name.as_str().unicode_len() > MAX_NAME_LEN {
        return Err(MarketplaceError::NameTooLong);
    }
    if description.as_str().unicode_len() > MAX_DESCRIPTION_LEN {
        return Err(MarketplaceError::DescriptionTooLong);
    }
    ctx.vendor.owner = ctx.owner;
    ctx.vendor.name = name;
    ctx.vendor.description = description;
    ctx.vendor.active = true;
    Ok(())
}

} // verus!
