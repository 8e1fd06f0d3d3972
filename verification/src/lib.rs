//! Verified core of an escrow-style marketplace for unique assets.
//!
//! A seller lists an asset without giving up custody: the listing's derived
//! authority is granted a delegation of one unit. A buyer settles the sale in
//! one indivisible step that pays the seller, pays the platform fee and moves
//! the asset through that delegation.
//!
//! Every operation is a function from the records it declares to the new
//! records and the instructions that the host has to carry out. The host
//! carries out all of an operation's instructions or none, and runs the
//! operations on one listing one after the other.

pub mod accounts;
pub mod address;
pub mod custody;
pub mod error;
pub mod events;
pub mod gateway;
pub mod instructions;
pub mod laws;
pub mod ledger;
pub mod settlement;
pub mod state;

pub use accounts::{
    BuyNFT, CancelListing, Canceled, InitializeMarketplace, ListNFT, Listed, Sold, UpdateListing,
    Updated,
};
pub use address::Address;
pub use custody::{read_token_account, TokenHolding};
pub use error::ErrorCode;
pub use events::{MarketplaceCreated, NFTListed, NFTListingCanceled, NFTListingUpdated, NFTSold};
pub use gateway::{DelegatedTransfer, Grant, Revoke};
pub use instructions::{
    buy_nft, cancel_listing, initialize_marketplace, list_nft, update_listing,
};
pub use settlement::{checked_split_price, fee_within_price, split_price, FeeSplit, Payment};
pub use state::{Marketplace, NFTListing};
