//! The records that each operation declares, and what it hands back.
//!
//! A slot of type `Option` stands for a record that may be absent. An
//! operation that succeeds leaves the new records in its context; one that
//! fails leaves the context as it was.

use vstd::prelude::*;
use crate::address::Address;
use crate::events::{NFTListed, NFTListingCanceled, NFTListingUpdated, NFTSold};
use crate::gateway::{DelegatedTransfer, Grant, Revoke};
use crate::settlement::Payment;
use crate::state::{Marketplace, NFTListing};

verus! {

/// The records of `initialize_marketplace`.
#[derive(Clone, Debug, PartialEq, Eq)]
pub struct InitializeMarketplace {
    /// The program under which the registry's address derives.
    pub program_id: Address,
    /// The registry's slot: empty until the marketplace is initialised.
    pub marketplace: Option<Marketplace>,
    /// The caller, who becomes the administrator.
    pub authority: Address,
}

/// The records of `list_nft`.
#[derive(Clone, Debug, PartialEq, Eq)]
pub struct ListNFT {
    pub program_id: Address,
    /// The slot of the listing of `nft_mint` by `seller`.
    pub listing: Option<NFTListing>,
    /// The registry: there is no listing before the marketplace exists.
    pub marketplace: Marketplace,
    /// The caller.
    pub seller: Address,
    pub nft_mint: Address,
    /// The data of the custody account that the seller shows.
    pub nft_token_account: Vec<u8>,
}

/// The records of `update_listing`.
#[derive(Clone, Debug, PartialEq, Eq)]
pub struct UpdateListing {
    pub program_id: Address,
    pub listing: NFTListing,
    /// The caller.
    pub seller: Address,
    /// The data of the custody account that the seller shows.
    pub nft_token_account: Vec<u8>,
}

/// The records of `buy_nft`.
#[derive(Clone, Debug, PartialEq, Eq)]
pub struct BuyNFT {
    pub program_id: Address,
    pub marketplace: Marketplace,
    /// The slot of the listing that the buyer names.
    pub listing: Option<NFTListing>,
    /// The caller.
    pub buyer: Address,
}

/// The records of `cancel_listing`.
#[derive(Clone, Debug, PartialEq, Eq)]
pub struct CancelListing {
    pub program_id: Address,
    /// The slot of the listing that the caller names.
    pub listing: Option<NFTListing>,
    /// The caller.
    pub seller: Address,
}

/// What a new listing asks of the host.
#[derive(Clone, Copy, Debug, PartialEq, Eq)]
pub struct Listed {
    pub grant: Grant,
    pub event: NFTListed,
}

/// What an updated listing asks of the host.
#[derive(Clone, Copy, Debug, PartialEq, Eq)]
pub struct Updated {
    pub grant: Grant,
    pub event: NFTListingUpdated,
}

/// What a sale asks of the host, in this order: pay the seller, pay the fee
/// if there is one, move the asset. The host carries out all of it or none.
#[derive(Clone, Copy, Debug, PartialEq, Eq)]
pub struct Sold {
    pub seller_payment: Payment,
    pub fee_payment: Option<Payment>,
    pub transfer: DelegatedTransfer,
    pub event: NFTSold,
}

/// What a cancelled listing asks of the host.
#[derive(Clone, Copy, Debug, PartialEq, Eq)]
pub struct Canceled {
    pub revoke: Revoke,
    pub event: NFTListingCanceled,
}

} // verus!
