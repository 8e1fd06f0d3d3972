//! The five operations of the marketplace.
//!
//! Each operation comes twice. The function named after the operation reads
//! the custody account and derives the authority it needs, then decides. The
//! method on the context decides from what was read and derived, so that its
//! result is stated for every value of them.

use vstd::prelude::*;
use crate::accounts::{
    BuyNFT, CancelListing, Canceled, InitializeMarketplace, ListNFT, Listed, Sold, UpdateListing,
    Updated,
};
use crate::address::Address;
use crate::custody::{read_token_account, token_holding, TokenHolding};
use crate::error::ErrorCode;
use crate::events::{
    MarketplaceCreated, NFTListed, NFTListingCanceled, NFTListingUpdated, NFTSold,
};
use crate::gateway::{
    derived_listing, derived_marketplace, find_listing_address, find_marketplace_address,
    listing_authority, resolve_listing_authority, DelegatedTransfer, Grant, Revoke,
};
use crate::settlement::{fee_of, fee_within_price, split_price, Payment, BASIS_POINTS};
use crate::state::{is_active, Marketplace, NFTListing};

verus! {

/// An operation ended as `expected` says: with the new context and the
/// result, or with the error and the context unchanged.
pub open spec fn outcome_is<C, T>(
    expected: Result<(C, T), ErrorCode>,
    before: C,
    after: C,
    r: Result<T, ErrorCode>,
) -> bool {
    match expected {
        Ok((context, out)) => after == context && r == Ok::<T, ErrorCode>(out),
        Err(e) => after == before && r == Err::<T, ErrorCode>(e),
    }
}

impl InitializeMarketplace {
    /// The registry is created once, with the caller as administrator. The
    /// fee is taken as given.
    pub open spec fn initialize_spec(self, marketplace_fee: u16, derived: Option<(Address, u8)>)
        -> Result<(InitializeMarketplace, MarketplaceCreated), ErrorCode> {
        if self.marketplace is Some {
            Err(ErrorCode::AlreadyInitialized)
        } else if derived is None {
            Err(ErrorCode::InvalidSeeds)
        } else {
            let (address, bump) = derived->0;
            Ok(
                (
                    InitializeMarketplace {
                        marketplace: Some(
                            Marketplace { authority: self.authority, fee: marketplace_fee, bump },
                        ),
                        ..self
                    },
                    MarketplaceCreated {
                        marketplace: address,
                        authority: self.authority,
                        fee: marketplace_fee,
                    },
                ),
            )
        }
    }

    /// Creates the registry at the address `derived`.
    pub fn initialize(&mut self, marketplace_fee: u16, derived: Option<(Address, u8)>) -> (r:
        Result<MarketplaceCreated, ErrorCode>)
        ensures
            outcome_is(
                old(self).initialize_spec(marketplace_fee, derived),
                *old(self),
                *final(self),
                r,
            ),
    {
        if self.marketplace.is_some() {
            return Err(ErrorCode::AlreadyInitialized);
        }
        match derived {
            None => Err(ErrorCode::InvalidSeeds),
            Some((address, bump)) => {
                self.marketplace = Some(
                    Marketplace { authority: self.authority, fee: marketplace_fee, bump },
                );
                Ok(
                    MarketplaceCreated {
                        marketplace: address,
                        authority: self.authority,
                        fee: marketplace_fee,
                    },
                )
            },
        }
    }
}

/// Creates the marketplace registry at its derived address, with the caller
/// as administrator and the given fee in basis points. It is refused with
/// `AlreadyInitialized` where the registry exists.
pub fn initialize_marketplace(ctx: &mut InitializeMarketplace, marketplace_fee: u16) -> (r: Result<
    MarketplaceCreated,
    ErrorCode,
>)
    ensures
        outcome_is(
            old(ctx).initialize_spec(marketplace_fee, derived_marketplace(old(ctx).program_id)),
            *old(ctx),
            *final(ctx),
            r,
        ),
        old(ctx).marketplace is Some ==> r == Err::<MarketplaceCreated, ErrorCode>(
            ErrorCode::AlreadyInitialized,
        ),
{
    let derived = find_marketplace_address(&ctx.program_id);
    ctx.initialize(marketplace_fee, derived)
}

impl ListNFT {
    /// A listing is created for a seller who shows a custody account of the
    /// asset with exactly one unit, where none exists yet for the asset and
    /// the seller. The new listing is active, and its derived authority is
    /// granted a delegation of one unit.
    pub open spec fn create_spec(
        self,
        price: u64,
        custody: Option<TokenHolding>,
        derived: Option<(Address, u8)>,
    ) -> Result<(ListNFT, Listed), ErrorCode> {
        if custody is None {
            Err(ErrorCode::InvalidTokenAccount)
        } else if !custody->0.is_single_unit(self.nft_mint, self.seller) {
            Err(ErrorCode::InvalidNFTAmount)
        } else if self.listing is Some {
            Err(ErrorCode::AlreadyExists)
        } else if derived is None {
            Err(ErrorCode::InvalidSeeds)
        } else {
            let (authority, bump) = derived->0;
            Ok(
                (
                    ListNFT {
                        listing: Some(
                            NFTListing {
                                seller: self.seller,
                                nft_mint: self.nft_mint,
                                price,
                                active: true,
                                bump,
                            },
                        ),
                        ..self
                    },
                    Listed {
                        grant: Grant {
                            owner: self.seller,
                            asset: self.nft_mint,
                            delegate: authority,
                            amount: 1,
                        },
                        event: NFTListed {
                            listing: authority,
                            seller: self.seller,
                            nft_mint: self.nft_mint,
                            price,
                        },
                    },
                ),
            )
        }
    }

    /// Creates the listing, given what the custody account states and the
    /// authority that derives from the listing's seeds.
    pub fn create(
        &mut self,
        price: u64,
        custody: Option<TokenHolding>,
        derived: Option<(Address, u8)>,
    ) -> (r: Result<Listed, ErrorCode>)
        ensures
            outcome_is(
                old(self).create_spec(price, custody, derived),
                *old(self),
                *final(self),
                r,
            ),
    {
        let holding = match custody {
            None => {
                return Err(ErrorCode::InvalidTokenAccount);
            },
            Some(holding) => holding,
        };
        if !holding.holds_single_unit(&self.nft_mint, &self.seller) {
            return Err(ErrorCode::InvalidNFTAmount);
        }
        if self.listing.is_some() {
            return Err(ErrorCode::AlreadyExists);
        }
        let (authority, bump) = match derived {
            None => {
                return Err(ErrorCode::InvalidSeeds);
            },
            Some(found) => found,
        };
        self.listing = Some(
            NFTListing {
                seller: self.seller,
                nft_mint: self.nft_mint,
                price,
                active: true,
                bump,
            },
        );
        Ok(
            Listed {
                grant: Grant {
                    owner: self.seller,
                    asset: self.nft_mint,
                    delegate: authority,
                    amount: 1,
                },
                event: NFTListed {
                    listing: authority,
                    seller: self.seller,
                    nft_mint: self.nft_mint,
                    price,
                },
            },
        )
    }
}

/// Puts an asset up for sale at `price`: reads the custody account, derives
/// the listing's authority and creates the listing. A listing that was
/// created holds the bump seed that proves its authority.
pub fn list_nft(ctx: &mut ListNFT, price: u64) -> (r: Result<Listed, ErrorCode>)
    ensures
        outcome_is(
            old(ctx).create_spec(
                price,
                token_holding(old(ctx).nft_token_account@),
                derived_listing(old(ctx).nft_mint, old(ctx).seller, old(ctx).program_id),
            ),
            *old(ctx),
            *final(ctx),
            r,
        ),
        r matches Ok(listed) ==> final(ctx).listing matches Some(listing) && listing_authority(
            listing.nft_mint,
            listing.seller,
            listing.bump,
            old(ctx).program_id,
        ) == Some(listed.grant.delegate),
{
    let custody = read_token_account(ctx.nft_token_account.as_slice());
    let derived = find_listing_address(&ctx.nft_mint, &ctx.seller, &ctx.program_id);
    ctx.create(price, custody, derived)
}

impl UpdateListing {
    /// The seller of a listing sets a new price, while still showing a
    /// custody account of the asset with exactly one unit. The listing is
    /// active afterwards, and the delegation is granted anew.
    pub open spec fn update_spec(
        self,
        price: u64,
        custody: Option<TokenHolding>,
        authority: Option<Address>,
    ) -> Result<(UpdateListing, Updated), ErrorCode> {
        if self.listing.seller != self.seller {
            Err(ErrorCode::UnauthorizedAccess)
        } else if custody is None {
            Err(ErrorCode::InvalidTokenAccount)
        } else if !custody->0.is_single_unit(self.listing.nft_mint, self.seller) {
            Err(ErrorCode::InvalidNFTAmount)
        } else if authority is None {
            Err(ErrorCode::InvalidSeeds)
        } else {
            Ok(
                (
                    UpdateListing {
                        listing: NFTListing { price, active: true, ..self.listing },
                        ..self
                    },
                    Updated {
                        grant: Grant {
                            owner: self.seller,
                            asset: self.listing.nft_mint,
                            delegate: authority->0,
                            amount: 1,
                        },
                        event: NFTListingUpdated {
                            listing: authority->0,
                            seller: self.seller,
                            nft_mint: self.listing.nft_mint,
                            price,
                        },
                    },
                ),
            )
        }
    }

    /// Updates the listing, given what the custody account states and the
    /// authority that the listing's seeds prove.
    pub fn update(&mut self, price: u64, custody: Option<TokenHolding>, authority: Option<Address>)
        -> (r: Result<Updated, ErrorCode>)
        ensures
            outcome_is(
                old(self).update_spec(price, custody, authority),
                *old(self),
                *final(self),
                r,
            ),
            old(self).listing.seller != old(self).seller ==> r == Err::<Updated, ErrorCode>(
                ErrorCode::UnauthorizedAccess,
            ),
    {
        if self.listing.seller != self.seller {
            return Err(ErrorCode::UnauthorizedAccess);
        }
        let holding = match custody {
            None => {
                return Err(ErrorCode::InvalidTokenAccount);
            },
            Some(holding) => holding,
        };
        if !holding.holds_single_unit(&self.listing.nft_mint, &self.seller) {
            return Err(ErrorCode::InvalidNFTAmount);
        }
        let delegate = match authority {
            None => {
                return Err(ErrorCode::InvalidSeeds);
            },
            Some(address) => address,
        };
        self.listing.price = price;
        self.listing.active = true;
        Ok(
            Updated {
                grant: Grant {
                    owner: self.seller,
                    asset: self.listing.nft_mint,
                    delegate,
                    amount: 1,
                },
                event: NFTListingUpdated {
                    listing: delegate,
                    seller: self.seller,
                    nft_mint: self.listing.nft_mint,
                    price,
                },
            },
        )
    }
}

/// Sets a new price on a listing and renews its delegation: reads the
/// custody account, recomputes the listing's authority and updates the
/// listing. A caller who is not the recorded seller is refused with
/// `UnauthorizedAccess`, whatever the custody account holds.
pub fn update_listing(ctx: &mut UpdateListing, price: u64) -> (r: Result<Updated, ErrorCode>)
    ensures
        outcome_is(
            old(ctx).update_spec(
                price,
                token_holding(old(ctx).nft_token_account@),
                listing_authority(
                    old(ctx).listing.nft_mint,
                    old(ctx).listing.seller,
                    old(ctx).listing.bump,
                    old(ctx).program_id,
                ),
            ),
            *old(ctx),
            *final(ctx),
            r,
        ),
        old(ctx).listing.seller != old(ctx).seller ==> r == Err::<Updated, ErrorCode>(
            ErrorCode::UnauthorizedAccess,
        ) && *final(ctx) == *old(ctx),
{
    let custody = read_token_account(ctx.nft_token_account.as_slice());
    let authority = resolve_listing_authority(
        &ctx.listing.nft_mint,
        &ctx.listing.seller,
        ctx.listing.bump,
        &ctx.program_id,
    );
    ctx.update(price, custody, authority)
}

impl BuyNFT {
    /// Whether the price of the listing in the slot can be divided at the
    /// marketplace's fee. It can whenever the fee is at most a whole.
    pub open spec fn fee_fits(self) -> bool {
        is_active(self.listing) ==> fee_of(self.listing->0.price, self.marketplace.fee)
            <= self.listing->0.price
    }

    /// An active listing is sold to the buyer: the seller is paid the price
    /// less the fee, the administrator is paid the fee if it is not zero, the
    /// asset moves through the listing's delegation, and the listing is
    /// inactive afterwards.
    pub open spec fn settle_spec(self, authority: Option<Address>) -> Result<
        (BuyNFT, Sold),
        ErrorCode,
    > {
        if !is_active(self.listing) {
            Err(ErrorCode::ListingNotActive)
        } else if authority is None {
            Err(ErrorCode::InvalidSeeds)
        } else {
            let listing = self.listing->0;
            let fee = fee_of(listing.price, self.marketplace.fee);
            Ok(
                (
                    BuyNFT { listing: Some(NFTListing { active: false, ..listing }), ..self },
                    Sold {
                        seller_payment: Payment {
                            from: self.buyer,
                            to: listing.seller,
                            amount: (listing.price - fee) as u64,
                        },
                        fee_payment: if fee > 0 {
                            Some(
                                Payment {
                                    from: self.buyer,
                                    to: self.marketplace.authority,
                                    amount: fee as u64,
                                },
                            )
                        } else {
                            None
                        },
                        transfer: DelegatedTransfer {
                            asset: listing.nft_mint,
                            from: listing.seller,
                            to: self.buyer,
                            amount: 1,
                            delegate: authority->0,
                            bump: listing.bump,
                        },
                        event: NFTSold {
                            listing: authority->0,
                            buyer: self.buyer,
                            price: listing.price,
                        },
                    },
                ),
            )
        }
    }

    /// Tests `fee_fits`.
    pub fn check_fee_fits(&self) -> (r: bool)
        ensures
            r == self.fee_fits(),
            self.marketplace.fee <= BASIS_POINTS ==> r,
    {
        match self.listing {
            Some(listing) => !listing.active || fee_within_price(
                listing.price,
                self.marketplace.fee,
            ),
            None => true,
        }
    }

    /// Settles the sale, given the authority that the listing's seeds prove.
    pub fn settle(&mut self, authority: Option<Address>) -> (r: Result<Sold, ErrorCode>)
        requires
            old(self).fee_fits(),
        ensures
            outcome_is(old(self).settle_spec(authority), *old(self), *final(self), r),
            !is_active(old(self).listing) ==> r == Err::<
                Sold,
                ErrorCode,
            >(ErrorCode::ListingNotActive) && *final(self) == *old(self),
    {
        let listing = match self.listing {
            None => {
                return Err(ErrorCode::ListingNotActive);
            },
            Some(listing) => listing,
        };
        if !listing.active {
            return Err(ErrorCode::ListingNotActive);
        }
        let delegate = match authority {
            None => {
                return Err(ErrorCode::InvalidSeeds);
            },
            Some(address) => address,
        };
        let split = split_price(listing.price, self.marketplace.fee);
        let fee_payment = if split.fee_amount > 0 {
            Some(
                Payment {
                    from: self.buyer,
                    to: self.marketplace.authority,
                    amount: split.fee_amount,
                },
            )
        } else {
            None
        };
        self.listing = Some(
            NFTListing {
                seller: listing.seller,
                nft_mint: listing.nft_mint,
                price: listing.price,
                active: false,
                bump: listing.bump,
            },
        );
        Ok(
            Sold {
                seller_payment: Payment {
                    from: self.buyer,
                    to: listing.seller,
                    amount: split.seller_amount,
                },
                fee_payment,
                transfer: DelegatedTransfer {
                    asset: listing.nft_mint,
                    from: listing.seller,
                    to: self.buyer,
                    amount: 1,
                    delegate,
                    bump: listing.bump,
                },
                event: NFTSold { listing: delegate, buyer: self.buyer, price: listing.price },
            },
        )
    }
}

/// The authority of the listing in a slot, if the slot holds one.
pub open spec fn slot_authority(slot: Option<NFTListing>, program_id: Address) -> Option<
    Address,
> {
    match slot {
        Some(listing) => listing_authority(
            listing.nft_mint,
            listing.seller,
            listing.bump,
            program_id,
        ),
        None => None,
    }
}

fn resolve_slot_authority(slot: &Option<NFTListing>, program_id: &Address) -> (r: Option<
    Address,
>)
    ensures
        r == slot_authority(*slot, *program_id),
{
    match slot {
        Some(listing) => resolve_listing_authority(
            &listing.nft_mint,
            &listing.seller,
            listing.bump,
            program_id,
        ),
        None => None,
    }
}

/// Buys the asset of an active listing: recomputes the listing's authority
/// and settles the sale. A listing that is inactive or absent is refused with
/// `ListingNotActive`, and nothing is asked of the host.
pub fn buy_nft(ctx: &mut BuyNFT) -> (r: Result<Sold, ErrorCode>)
    requires
        old(ctx).fee_fits(),
    ensures
        outcome_is(
            old(ctx).settle_spec(slot_authority(old(ctx).listing, old(ctx).program_id)),
            *old(ctx),
            *final(ctx),
            r,
        ),
        !is_active(old(ctx).listing) ==> r == Err::<
            Sold,
            ErrorCode,
        >(ErrorCode::ListingNotActive) && *final(ctx) == *old(ctx),
{
    let authority = resolve_slot_authority(&ctx.listing, &ctx.program_id);
    ctx.settle(authority)
}

impl CancelListing {
    /// The seller of an active listing withdraws it: the delegation is
    /// revoked and the listing is inactive afterwards.
    pub open spec fn cancel_spec(self, authority: Option<Address>) -> Result<
        (CancelListing, Canceled),
        ErrorCode,
    > {
        if !is_active(self.listing) {
            Err(ErrorCode::ListingNotActive)
        } else if self.listing->0.seller != self.seller {
            Err(ErrorCode::UnauthorizedAccess)
        } else if authority is None {
            Err(ErrorCode::InvalidSeeds)
        } else {
            let listing = self.listing->0;
            Ok(
                (
                    CancelListing {
                        listing: Some(NFTListing { active: false, ..listing }),
                        ..self
                    },
                    Canceled {
                        revoke: Revoke { owner: self.seller, asset: listing.nft_mint },
                        event: NFTListingCanceled {
                            listing: authority->0,
                            seller: self.seller,
                            nft_mint: listing.nft_mint,
                        },
                    },
                ),
            )
        }
    }

    /// Cancels the listing, given the authority that its seeds prove.
    pub fn cancel(&mut self, authority: Option<Address>) -> (r: Result<Canceled, ErrorCode>)
        ensures
            outcome_is(old(self).cancel_spec(authority), *old(self), *final(self), r),
    {
        let listing = match self.listing {
            None => {
                return Err(ErrorCode::ListingNotActive);
            },
            Some(listing) => listing,
        };
        if !listing.active {
            return Err(ErrorCode::ListingNotActive);
        }
        if listing.seller != self.seller {
            return Err(ErrorCode::UnauthorizedAccess);
        }
        let address = match authority {
            None => {
                return Err(ErrorCode::InvalidSeeds);
            },
            Some(address) => address,
        };
        self.listing = Some(
            NFTListing {
                seller: listing.seller,
                nft_mint: listing.nft_mint,
                price: listing.price,
                active: false,
                bump: listing.bump,
            },
        );
        Ok(
            Canceled {
                revoke: Revoke { owner: self.seller, asset: listing.nft_mint },
                event: NFTListingCanceled {
                    listing: address,
                    seller: self.seller,
                    nft_mint: listing.nft_mint,
                },
            },
        )
    }
}

/// Withdraws an active listing and revokes its delegation: recomputes the
/// listing's authority and cancels the listing.
pub fn cancel_listing(ctx: &mut CancelListing) -> (r: Result<Canceled, ErrorCode>)
    ensures
        outcome_is(
            old(ctx).cancel_spec(slot_authority(old(ctx).listing, old(ctx).program_id)),
            *old(ctx),
            *final(ctx),
            r,
        ),
{
    let authority = resolve_slot_authority(&ctx.listing, &ctx.program_id);
    ctx.cancel(authority)
}

} // verus!
