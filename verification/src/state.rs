//! The records that the marketplace owns: the registry and the listings.

use vstd::prelude::*;
use crate::address::Address;

verus! {

/// The marketplace registry: one per program.
#[derive(Clone, Copy, Debug, PartialEq, Eq)]
pub struct Marketplace {
    /// The administrator, who receives the fees.
    pub authority: Address,
    /// The fee in basis points (100 is one percent).
    pub fee: u16,
    /// The bump seed of the registry's derived address.
    pub bump: u8,
}

/// A seller's offer of one unit of an asset at a fixed price. There is at
/// most one listing for an asset and a seller.
#[derive(Clone, Copy, Debug, PartialEq, Eq)]
pub struct NFTListing {
    pub seller: Address,
    pub nft_mint: Address,
    /// The price in the smallest unit of the native currency.
    pub price: u64,
    /// Whether the asset can be bought.
    pub active: bool,
    /// The bump seed of the listing's derived authority.
    pub bump: u8,
}

/// Where a listing stands in its life.
pub enum ListingState {
    Uncreated,
    Active,
    Inactive,
}

/// The state of the listing that a slot holds.
pub open spec fn listing_state(slot: Option<NFTListing>) -> ListingState {
    match slot {
        None => ListingState::Uncreated,
        Some(listing) => if listing.active {
            ListingState::Active
        } else {
            ListingState::Inactive
        },
    }
}

/// Whether a slot holds an active listing.
pub open spec fn is_active(slot: Option<NFTListing>) -> bool {
    listing_state(slot) is Active
}

} // verus!
