//! A two-sided marketplace for tokenized service entitlements.
//!
//! Vendors register, mint service records and list them for sale. Buyers
//! purchase a listing, pass a record on, or resell it; a resale pays a royalty
//! to the marketplace and one to the vendor who minted the record. A record
//! minted as soulbound never leaves its first owner.
//!
//! Every operation takes the records it works on as plain values and says in
//! its contract what it leaves behind. Payments are not made here: see
//! [`ledger`].

pub mod error;
pub mod events;
pub mod identity;
pub mod laws;
pub mod ledger;
pub mod listing;
pub mod registry;
pub mod resale;
pub mod royalty;
pub mod service;
pub mod state;

pub use error::{Failure, MarketplaceError};
pub use events::{ServiceNftResold, ServiceNftTransferred, ServicePurchased};
pub use ledger::Transfer;
pub use listing::{list_service, purchase_payment, purchase_service, ListService, PurchaseService};
pub use registry::{
    initialize_marketplace, register_vendor, InitializeMarketplace, RegisterVendor,
    MAX_DESCRIPTION_LEN, MAX_NAME_LEN,
};
pub use resale::{resale_payments, resell_service_nft, ResellServiceNft};
pub use royalty::{split_royalties, RoyaltySplit};
pub use service::{mint_service_nft, transfer_service_nft, MintServiceNft, TransferServiceNft};
pub use state::{Marketplace, ServiceListing, ServiceNft, Vendor};
