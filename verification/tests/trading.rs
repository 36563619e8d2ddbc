use anchor_lang::prelude::Pubkey;
use two_sided_marketplace::{
    list_service, mint_service_nft, purchase_payment, purchase_service, resale_payments,
    resell_service_nft, transfer_service_nft, Failure, ListService, Marketplace,
    MarketplaceError, MintServiceNft, PurchaseService, ResellServiceNft, ServiceListing,
    ServiceNft, ServiceNftResold, ServiceNftTransferred, ServicePurchased, Transfer,
    TransferServiceNft,
};

const VENDOR: u8 = 1;
const BUYER: u8 = 2;
const STRANGER: u8 = 3;
const ADMIN: u8 = 4;
const RECORD: u8 = 10;
const BUYER_TOKENS: u8 = 20;
const SELLER_TOKENS: u8 = 21;
const MARKETPLACE_TOKENS: u8 = 22;
const VENDOR_TOKENS: u8 = 23;

fn key(tag: u8) -> Pubkey {
    Pubkey::new_from_array([tag; 32])
}

fn record(owner: u8, is_soulbound: bool, royalty_rate: u8) -> ServiceNft {
    ServiceNft {
        vendor: key(VENDOR),
        metadata: String::from("ipfs://service"),
        price: 1000,
        is_soulbound,
        owner: key(owner),
        royalty_rate,
    }
}

fn no_listing() -> ServiceListing {
    ServiceListing { service_nft: Pubkey::default(), vendor: Pubkey::default(), price: 0, is_active: false }
}

fn listing(price: u64, is_active: bool) -> ServiceListing {
    ServiceListing { service_nft: key(RECORD), vendor: key(VENDOR), price, is_active }
}

fn purchase_of(service_listing: ServiceListing, service_nft: ServiceNft) -> PurchaseService {
    PurchaseService {
        service_listing,
        service_nft,
        service_nft_key: key(RECORD),
        buyer: key(BUYER),
        seller: key(VENDOR),
        buyer_token_account: key(BUYER_TOKENS),
        seller_token_account: key(SELLER_TOKENS),
    }
}

fn resale_of(service_nft: ServiceNft, seller: u8, base_royalty_rate: u8) -> ResellServiceNft {
    ResellServiceNft {
        service_nft,
        service_nft_key: key(RECORD),
        marketplace: Marketplace { admin: key(ADMIN), base_royalty_rate },
        current_owner: key(seller),
        buyer: key(BUYER),
        vendor: key(VENDOR),
        buyer_token_account: key(BUYER_TOKENS),
        seller_token_account: key(SELLER_TOKENS),
        marketplace_token_account: key(MARKETPLACE_TOKENS),
        vendor_token_account: key(VENDOR_TOKENS),
    }
}

fn from_buyer(to: u8, amount: u64) -> Transfer {
    Transfer { from: key(BUYER_TOKENS), to: key(to), authority: key(BUYER), amount }
}

const PAID: Result<(), &str> = Ok(());

// Minting

#[test]
fn mint_makes_the_vendor_the_first_owner() {
    let mut ctx = MintServiceNft { service_nft: record(STRANGER, true, 99), vendor: key(VENDOR) };
    let r = mint_service_nft(&mut ctx, String::from("ipfs://service"), 1000, false, 5);
    assert_eq!(r, Ok(()));
    assert_eq!(ctx.service_nft, record(VENDOR, false, 5));
    assert_eq!(ctx.service_nft.owner, ctx.service_nft.vendor);
    assert_eq!(ctx.vendor, key(VENDOR));
}

#[test]
fn mint_takes_any_rate_and_price() {
    let mut ctx = MintServiceNft { service_nft: record(STRANGER, false, 0), vendor: key(VENDOR) };
    assert_eq!(mint_service_nft(&mut ctx, String::new(), u64::MAX, true, 255), Ok(()));
    assert_eq!(
        ctx.service_nft,
        ServiceNft {
            vendor: key(VENDOR),
            metadata: String::new(),
            price: u64::MAX,
            is_soulbound: true,
            owner: key(VENDOR),
            royalty_rate: 255,
        }
    );
}

// Listing

#[test]
fn list_creates_an_active_listing() {
    let mut ctx = ListService {
        service_listing: no_listing(),
        service_nft: record(VENDOR, false, 5),
        service_nft_key: key(RECORD),
        vendor: key(VENDOR),
    };
    assert_eq!(list_service(&mut ctx, 1000), Ok(()));
    assert_eq!(ctx.service_listing, listing(1000, true));
    assert_eq!(ctx.service_nft, record(VENDOR, false, 5));
}

#[test]
fn list_by_a_stranger_is_refused() {
    let mut ctx = ListService {
        service_listing: no_listing(),
        service_nft: record(VENDOR, false, 5),
        service_nft_key: key(RECORD),
        vendor: key(STRANGER),
    };
    let before = ctx.clone();
    assert_eq!(list_service(&mut ctx, 1000), Err(MarketplaceError::NotOwner));
    assert_eq!(ctx, before);
}

#[test]
fn list_goes_by_the_current_owner_not_the_minter() {
    // The record was minted by VENDOR and now belongs to BUYER.
    let mut ctx = ListService {
        service_listing: no_listing(),
        service_nft: record(BUYER, false, 5),
        service_nft_key: key(RECORD),
        vendor: key(VENDOR),
    };
    assert_eq!(list_service(&mut ctx, 1), Err(MarketplaceError::NotOwner));
    ctx.vendor = key(BUYER);
    assert_eq!(list_service(&mut ctx, 1), Ok(()));
    assert_eq!(
        ctx.service_listing,
        ServiceListing { service_nft: key(RECORD), vendor: key(BUYER), price: 1, is_active: true }
    );
}

#[test]
fn list_while_listed_is_refused() {
    let mut ctx = ListService {
        service_listing: listing(1000, true),
        service_nft: record(VENDOR, false, 5),
        service_nft_key: key(RECORD),
        vendor: key(VENDOR),
    };
    let before = ctx.clone();
    assert_eq!(list_service(&mut ctx, 2000), Err(MarketplaceError::ListingAlreadyActive));
    assert_eq!(ctx, before);
}

#[test]
fn list_again_after_the_sale() {
    let mut ctx = ListService {
        service_listing: listing(1000, false),
        service_nft: record(VENDOR, false, 5),
        service_nft_key: key(RECORD),
        vendor: key(VENDOR),
    };
    assert_eq!(list_service(&mut ctx, 2000), Ok(()));
    assert_eq!(ctx.service_listing, listing(2000, true));
}

#[test]
fn list_by_a_stranger_while_listed_reports_the_owner_first() {
    let mut ctx = ListService {
        service_listing: listing(1000, true),
        service_nft: record(VENDOR, false, 5),
        service_nft_key: key(RECORD),
        vendor: key(STRANGER),
    };
    assert_eq!(list_service(&mut ctx, 2000), Err(MarketplaceError::NotOwner));
}

// Purchase

#[test]
fn purchase_payment_is_the_listing_price_from_buyer_to_seller() {
    let ctx = purchase_of(listing(1000, true), record(VENDOR, false, 5));
    assert_eq!(
        purchase_payment(&ctx),
        Ok(Transfer {
            from: key(BUYER_TOKENS),
            to: key(SELLER_TOKENS),
            authority: key(BUYER),
            amount: 1000,
        })
    );
}

#[test]
fn purchase_payment_goes_by_the_listing_not_the_mint_price() {
    let ctx = purchase_of(listing(750, true), record(VENDOR, false, 5));
    assert_eq!(purchase_payment(&ctx).map(|t| t.amount), Ok(750));
}

#[test]
fn purchase_payment_of_a_closed_listing_is_refused() {
    let ctx = purchase_of(listing(1000, false), record(VENDOR, false, 5));
    assert_eq!(purchase_payment(&ctx), Err(MarketplaceError::ListingNotActive));
}

#[test]
fn purchase_hands_over_the_record_and_closes_the_listing() {
    let mut ctx = purchase_of(listing(1000, true), record(VENDOR, false, 5));
    let r = purchase_service(&mut ctx, PAID);
    assert_eq!(
        r,
        Ok(ServicePurchased {
            buyer: key(BUYER),
            seller: key(VENDOR),
            service_nft: key(RECORD),
            price: 1000,
        })
    );
    assert_eq!(ctx.service_nft, record(BUYER, false, 5));
    assert_eq!(ctx.service_listing, listing(1000, false));
}

#[test]
fn purchase_of_a_soulbound_record_leaves_the_owner() {
    let mut ctx = purchase_of(listing(1000, true), record(VENDOR, true, 5));
    let r = purchase_service(&mut ctx, PAID);
    assert_eq!(r.map(|event| event.price), Ok(1000));
    assert_eq!(ctx.service_nft, record(VENDOR, true, 5));
    assert_eq!(ctx.service_listing, listing(1000, false));
}

#[test]
fn purchase_of_a_closed_listing_is_refused() {
    let mut ctx = purchase_of(listing(1000, false), record(VENDOR, false, 5));
    let before = ctx.clone();
    assert_eq!(
        purchase_service(&mut ctx, PAID),
        Err(Failure::Rejected(MarketplaceError::ListingNotActive))
    );
    assert_eq!(ctx, before);
}

#[test]
fn purchase_with_failed_payment_changes_nothing() {
    let mut ctx = purchase_of(listing(1000, true), record(VENDOR, false, 5));
    let before = ctx.clone();
    let r = purchase_service(&mut ctx, Err(String::from("insufficient funds")));
    assert_eq!(r, Err(Failure::Ledger(String::from("insufficient funds"))));
    assert_eq!(ctx, before);
}

#[test]
fn purchase_of_a_closed_listing_is_refused_before_the_ledger_is_heard() {
    let mut ctx = purchase_of(listing(1000, false), record(VENDOR, false, 5));
    let r = purchase_service(&mut ctx, Err(17u32));
    assert_eq!(r, Err(Failure::Rejected(MarketplaceError::ListingNotActive)));
}

#[test]
fn purchase_twice_succeeds_once() {
    let mut ctx = purchase_of(listing(1000, true), record(VENDOR, false, 5));
    assert!(purchase_service(&mut ctx, PAID).is_ok());
    let after_first = ctx.clone();
    // A second buyer finds the listing as the first left it.
    ctx.buyer = key(STRANGER);
    let after_first = PurchaseService { buyer: key(STRANGER), ..after_first };
    assert_eq!(purchase_payment(&ctx), Err(MarketplaceError::ListingNotActive));
    assert_eq!(
        purchase_service(&mut ctx, PAID),
        Err(Failure::Rejected(MarketplaceError::ListingNotActive))
    );
    assert_eq!(ctx, after_first);
    assert_eq!(ctx.service_nft.owner, key(BUYER));
}

// Transfer

#[test]
fn transfer_hands_the_record_to_the_new_owner() {
    let mut ctx = TransferServiceNft {
        service_nft: record(VENDOR, false, 5),
        service_nft_key: key(RECORD),
        current_owner: key(VENDOR),
        new_owner: key(BUYER),
    };
    assert_eq!(
        transfer_service_nft(&mut ctx),
        Ok(ServiceNftTransferred { service_nft: key(RECORD), from: key(VENDOR), to: key(BUYER) })
    );
    assert_eq!(ctx.service_nft, record(BUYER, false, 5));
}

#[test]
fn transfer_by_a_stranger_is_refused() {
    let mut ctx = TransferServiceNft {
        service_nft: record(VENDOR, false, 5),
        service_nft_key: key(RECORD),
        current_owner: key(STRANGER),
        new_owner: key(BUYER),
    };
    let before = ctx.clone();
    assert_eq!(transfer_service_nft(&mut ctx), Err(MarketplaceError::NotOwner));
    assert_eq!(ctx, before);
}

#[test]
fn transfer_of_a_soulbound_record_is_refused() {
    let mut ctx = TransferServiceNft {
        service_nft: record(VENDOR, true, 5),
        service_nft_key: key(RECORD),
        current_owner: key(VENDOR),
        new_owner: key(BUYER),
    };
    let before = ctx.clone();
    assert_eq!(transfer_service_nft(&mut ctx), Err(MarketplaceError::SoulboundNonTransferable));
    assert_eq!(ctx, before);
}

#[test]
fn transfer_of_a_soulbound_record_by_a_stranger_is_refused_as_soulbound() {
    let mut ctx = TransferServiceNft {
        service_nft: record(VENDOR, true, 5),
        service_nft_key: key(RECORD),
        current_owner: key(STRANGER),
        new_owner: key(BUYER),
    };
    assert_eq!(transfer_service_nft(&mut ctx), Err(MarketplaceError::SoulboundNonTransferable));
}

#[test]
fn transfer_to_oneself_keeps_the_owner() {
    let mut ctx = TransferServiceNft {
        service_nft: record(VENDOR, false, 5),
        service_nft_key: key(RECORD),
        current_owner: key(VENDOR),
        new_owner: key(VENDOR),
    };
    assert!(transfer_service_nft(&mut ctx).is_ok());
    assert_eq!(ctx.service_nft, record(VENDOR, false, 5));
}

// Resale

#[test]
fn resale_payments_are_seller_marketplace_vendor_in_that_order() {
    let ctx = resale_of(record(VENDOR, false, 5), VENDOR, 2);
    assert_eq!(
        resale_payments(&ctx, 2000),
        Ok(vec![
            from_buyer(SELLER_TOKENS, 1860),
            from_buyer(MARKETPLACE_TOKENS, 40),
            from_buyer(VENDOR_TOKENS, 100),
        ])
    );
}

#[test]
fn resale_hands_over_the_record() {
    let mut ctx = resale_of(record(VENDOR, false, 5), VENDOR, 2);
    let r = resell_service_nft(&mut ctx, 2000, PAID);
    assert_eq!(
        r,
        Ok(ServiceNftResold {
            service_nft: key(RECORD),
            from: key(VENDOR),
            to: key(BUYER),
            price: 2000,
            base_royalty: 40,
            vendor_royalty: 100,
        })
    );
    assert_eq!(ctx, resale_of(record(BUYER, false, 5), VENDOR, 2));
}

#[test]
fn resale_by_a_stranger_is_refused() {
    let mut ctx = resale_of(record(VENDOR, false, 5), STRANGER, 2);
    let before = ctx.clone();
    assert_eq!(resale_payments(&ctx, 2000), Err(MarketplaceError::NotOwner));
    assert_eq!(
        resell_service_nft(&mut ctx, 2000, PAID),
        Err(Failure::Rejected(MarketplaceError::NotOwner))
    );
    assert_eq!(ctx, before);
    assert_eq!(ctx.service_nft.owner, key(VENDOR));
}

#[test]
fn resale_of_a_soulbound_record_is_refused() {
    let mut ctx = resale_of(record(VENDOR, true, 5), VENDOR, 2);
    let before = ctx.clone();
    assert_eq!(resale_payments(&ctx, 2000), Err(MarketplaceError::SoulboundNonTransferable));
    assert_eq!(
        resell_service_nft(&mut ctx, 2000, PAID),
        Err(Failure::Rejected(MarketplaceError::SoulboundNonTransferable))
    );
    assert_eq!(ctx, before);
}

#[test]
fn resale_of_a_soulbound_record_by_a_stranger_is_refused_as_soulbound() {
    let mut ctx = resale_of(record(VENDOR, true, 5), STRANGER, 2);
    assert_eq!(resale_payments(&ctx, 2000), Err(MarketplaceError::SoulboundNonTransferable));
    assert_eq!(
        resell_service_nft(&mut ctx, 2000, PAID),
        Err(Failure::Rejected(MarketplaceError::SoulboundNonTransferable))
    );
}

#[test]
fn resale_where_royalties_exceed_the_price_is_refused() {
    let mut ctx = resale_of(record(VENDOR, false, 60), VENDOR, 50);
    let before = ctx.clone();
    assert_eq!(resale_payments(&ctx, 1000), Err(MarketplaceError::RoyaltyExceedsPrice));
    assert_eq!(
        resell_service_nft(&mut ctx, 1000, PAID),
        Err(Failure::Rejected(MarketplaceError::RoyaltyExceedsPrice))
    );
    assert_eq!(ctx, before);
}

#[test]
fn resale_by_a_stranger_is_refused_before_the_price_is_looked_at() {
    let ctx = resale_of(record(VENDOR, false, 60), STRANGER, 50);
    assert_eq!(resale_payments(&ctx, 1000), Err(MarketplaceError::NotOwner));
}

#[test]
fn resale_with_failed_payment_changes_nothing() {
    let mut ctx = resale_of(record(VENDOR, false, 5), VENDOR, 2);
    let before = ctx.clone();
    let r = resell_service_nft(&mut ctx, 2000, Err(0x1u64));
    assert_eq!(r, Err(Failure::Ledger(0x1u64)));
    assert_eq!(ctx, before);
}

#[test]
fn resale_at_price_zero_moves_nothing_but_the_record() {
    let mut ctx = resale_of(record(VENDOR, false, 5), VENDOR, 2);
    assert_eq!(
        resale_payments(&ctx, 0),
        Ok(vec![
            from_buyer(SELLER_TOKENS, 0),
            from_buyer(MARKETPLACE_TOKENS, 0),
            from_buyer(VENDOR_TOKENS, 0),
        ])
    );
    assert!(resell_service_nft(&mut ctx, 0, PAID).is_ok());
    assert_eq!(ctx.service_nft.owner, key(BUYER));
}

#[test]
fn resale_with_rates_of_one_hundred_percent_together() {
    let ctx = resale_of(record(VENDOR, false, 70), VENDOR, 30);
    assert_eq!(
        resale_payments(&ctx, 1000),
        Ok(vec![
            from_buyer(SELLER_TOKENS, 0),
            from_buyer(MARKETPLACE_TOKENS, 300),
            from_buyer(VENDOR_TOKENS, 700),
        ])
    );
}

#[test]
fn resale_payments_add_up_to_the_price() {
    for (price, base, vendor) in [(1u64, 2u8, 5u8), (999, 33, 33), (u64::MAX, 49, 51), (12345, 0, 100)] {
        let ctx = resale_of(record(VENDOR, false, vendor), VENDOR, base);
        let transfers = resale_payments(&ctx, price).expect("within bounds");
        assert_eq!(transfers.len(), 3);
        let total: u128 = transfers.iter().map(|t| t.amount as u128).sum();
        assert_eq!(total, price as u128);
        assert!(transfers.iter().all(|t| t.from == key(BUYER_TOKENS) && t.authority == key(BUYER)));
    }
}

// A soulbound record over a run of calls

#[test]
fn soulbound_record_keeps_its_owner_through_every_operation() {
    let mut nft = record(VENDOR, true, 5);
    for round in 0..3 {
        let mut purchase = purchase_of(listing(1000 + round, true), nft);
        assert!(purchase_service(&mut purchase, PAID).is_ok());
        nft = purchase.service_nft;

        let mut transfer = TransferServiceNft {
            service_nft: nft,
            service_nft_key: key(RECORD),
            current_owner: key(VENDOR),
            new_owner: key(BUYER),
        };
        assert!(transfer_service_nft(&mut transfer).is_err());
        nft = transfer.service_nft;

        let mut resale = resale_of(nft, VENDOR, 2);
        assert!(resell_service_nft(&mut resale, 2000, PAID).is_err());
        nft = resale.service_nft;

        assert_eq!(nft, record(VENDOR, true, 5));
    }
}

#[test]
fn record_keeps_everything_but_its_owner() {
    let mut purchase = purchase_of(listing(1000, true), record(VENDOR, false, 5));
    assert!(purchase_service(&mut purchase, PAID).is_ok());
    let mut resale = resale_of(purchase.service_nft, BUYER, 2);
    resale.buyer = key(STRANGER);
    assert!(resell_service_nft(&mut resale, 2000, PAID).is_ok());
    let mut transfer = TransferServiceNft {
        service_nft: resale.service_nft,
        service_nft_key: key(RECORD),
        current_owner: key(STRANGER),
        new_owner: key(ADMIN),
    };
    assert!(transfer_service_nft(&mut transfer).is_ok());
    assert_eq!(transfer.service_nft, record(ADMIN, false, 5));
}

// Addresses

#[test]
fn addresses_are_told_apart_by_every_byte() {
    let mut bytes = [7u8; 32];
    let owner = Pubkey::new_from_array(bytes);
    bytes[31] = 8;
    let almost = Pubkey::new_from_array(bytes);
    let mut ctx = TransferServiceNft {
        service_nft: ServiceNft { owner, ..record(VENDOR, false, 5) },
        service_nft_key: key(RECORD),
        current_owner: almost,
        new_owner: key(BUYER),
    };
    assert_eq!(transfer_service_nft(&mut ctx), Err(MarketplaceError::NotOwner));
    ctx.current_owner = Pubkey::new_from_array([7u8; 32]);
    assert!(transfer_service_nft(&mut ctx).is_ok());
}

#[test]
fn clones_hold_the_same_addresses() {
    let ctx = resale_of(record(VENDOR, false, 5), VENDOR, 2);
    let copy = ctx.clone();
    assert_eq!(copy.service_nft.owner, key(VENDOR));
    assert_eq!(copy.buyer_token_account, key(BUYER_TOKENS));
    assert_eq!(copy, ctx);
    assert_eq!(resale_payments(&copy, 2000), resale_payments(&ctx, 2000));
}
