//! The notifications that the operations emit.

use vstd::prelude::*;
use crate::address::Address;

verus! {

#[derive(Clone, Copy, Debug, PartialEq, Eq)]
pub struct MarketplaceCreated {
    pub marketplace: Address,
    pub authority: Address,
    pub fee: u16,
}

#[derive(Clone, Copy, Debug, PartialEq, Eq)]
pub struct NFTListed {
    pub listing: Address,
    pub seller: Address,
    pub nft_mint: Address,
    pub price: u64,
}

#[derive(Clone, Copy, Debug, PartialEq, Eq)]
pub struct NFTSold {
    pub listing: Address,
    pub buyer: Address,
    pub price: u64,
}

#[derive(Clone, Copy, Debug, PartialEq, Eq)]
pub struct NFTListingCanceled {
    pub listing: Address,
    pub seller: Address,
    pub nft_mint: Address,
}

#[derive(Clone, Copy, Debug, PartialEq, Eq)]
pub struct NFTListingUpdated {
    pub listing: Address,
    pub seller: Address,
    pub nft_mint: Address,
    pub price: u64,
}

} // verus!
