//! What holds of the operations, whatever the records they are given.

use vstd::prelude::*;
use crate::accounts::{BuyNFT, CancelListing, ListNFT, Listed, Sold, UpdateListing, Updated};
use crate::address::Address;
use crate::custody::TokenHolding;
use crate::error::ErrorCode;
use crate::gateway::DelegatedTransfer;
use crate::ledger::{Delegation, Ledger};
use crate::settlement::{fee_of, lemma_fee_within_price, BASIS_POINTS};
use crate::state::{is_active, listing_state, ListingState, NFTListing};

verus! {

/// At a rate of at most a whole, every price can be divided: the product of
/// the price and the rate fits in 128 bits, and the fee, which is that
/// product over ten thousand, rounded down, lies between nothing and the
/// price. So `split_price` takes every such price and rate, and the two
/// shares it returns add up to the price.
pub proof fn lemma_fee_split_exact(price: u64, fee_bps: u16)
    requires
        fee_bps <= BASIS_POINTS,
    ensures
        price * fee_bps <= u128::MAX,
        fee_of(price, fee_bps) == (price * fee_bps) / 10000,
        0 <= fee_of(price, fee_bps) <= price,
        0 <= price - fee_of(price, fee_bps) <= u64::MAX,
{
    lemma_fee_within_price(price, fee_bps);
    assert(price * fee_bps <= price * 10000) by (nonlinear_arith)
        requires
            0 <= fee_bps <= 10000,
            0 <= price,
    ;
}

/// A listing is refused with `InvalidNFTAmount` where the custody account
/// does not hold exactly one unit. Where the seller shows a custody account
/// of the asset with exactly one unit, no listing exists yet and an authority
/// derives, the listing is created active, and its grant installs a
/// delegation of one unit to that authority.
pub proof fn lemma_create_installs_delegation(
    ctx: ListNFT,
    price: u64,
    holding: TokenHolding,
    derived: Option<(Address, u8)>,
    ledger: Ledger,
)
    ensures
        holding.amount != 1 ==> ctx.create_spec(price, Some(holding), derived) == Err::<
            (ListNFT, Listed),
            ErrorCode,
        >(ErrorCode::InvalidNFTAmount),
        holding.is_single_unit(ctx.nft_mint, ctx.seller) && ctx.listing is None && derived is Some
            ==> {
            &&& ctx.create_spec(price, Some(holding), derived) matches Ok((after, listed))
            &&& is_active(after.listing)
            &&& after.listing->0.seller == ctx.seller
            &&& after.listing->0.nft_mint == ctx.nft_mint
            &&& after.listing->0.price == price
            &&& derived matches Some((address, _)) && listed.grant.delegate == address
            &&& ledger.grant(listed.grant).delegation_of(ctx.seller, ctx.nft_mint) == Some(
                Delegation { delegate: listed.event.listing, amount: 1 },
            )
        },
{
}

/// An update by anyone but the recorded seller is refused with
/// `UnauthorizedAccess`, whatever the custody account holds.
pub proof fn lemma_update_rejects_stranger(
    ctx: UpdateListing,
    price: u64,
    custody: Option<TokenHolding>,
    authority: Option<Address>,
)
    requires
        ctx.seller != ctx.listing.seller,
    ensures
        ctx.update_spec(price, custody, authority) == Err::<
            (UpdateListing, Updated),
            ErrorCode,
        >(ErrorCode::UnauthorizedAccess),
{
}

/// An update that succeeds leaves the listing active at the new price, and
/// its grant installs a delegation of one unit to the listing's authority,
/// whatever delegation stood before.
pub proof fn lemma_update_renews_delegation(
    ctx: UpdateListing,
    price: u64,
    custody: Option<TokenHolding>,
    authority: Option<Address>,
    ledger: Ledger,
)
    requires
        ctx.update_spec(price, custody, authority) is Ok,
    ensures
        ({
            let (after, updated) = ctx.update_spec(price, custody, authority)->Ok_0;
            &&& after.listing.active
            &&& after.listing.price == price
            &&& ledger.grant(updated.grant).delegation_of(
                ctx.listing.seller,
                ctx.listing.nft_mint,
            ) == Some(Delegation { delegate: authority->0, amount: 1 })
        }),
{
}

/// A purchase of a listing that is inactive or absent is refused with
/// `ListingNotActive`: it hands back no instruction, so nothing moves.
pub proof fn lemma_buy_needs_active_listing(ctx: BuyNFT, authority: Option<Address>)
    requires
        !is_active(ctx.listing),
    ensures
        ctx.settle_spec(authority) == Err::<(BuyNFT, Sold), ErrorCode>(
            ErrorCode::ListingNotActive,
        ),
{
}

/// After a sale that the ledger carried out, between a buyer, a seller and an
/// administrator who are three different identities: the listing is inactive;
/// the buyer holds one unit more of the asset and the seller one less; the
/// buyer holds less currency by the price, the seller more by the price less
/// the fee, and the administrator more by the fee.
pub proof fn lemma_sale_moves_funds_and_asset(
    ctx: BuyNFT,
    authority: Option<Address>,
    ledger: Ledger,
)
    requires
        ctx.fee_fits(),
        ctx.settle_spec(authority) matches Ok((_, sold)) && ledger.settle(sold) is Some,
        ctx.buyer != ctx.listing->0.seller,
        ctx.buyer != ctx.marketplace.authority,
        ctx.listing->0.seller != ctx.marketplace.authority,
    ensures
        ({
            let listing = ctx.listing->0;
            let (after, sold) = ctx.settle_spec(authority)->Ok_0;
            let settled = ledger.settle(sold)->0;
            let fee = fee_of(listing.price, ctx.marketplace.fee);
            &&& after.listing == Some(NFTListing { active: false, ..listing })
            &&& settled.balance_of(ctx.buyer, listing.nft_mint) == ledger.balance_of(
                ctx.buyer,
                listing.nft_mint,
            ) + 1
            &&& settled.balance_of(listing.seller, listing.nft_mint) == ledger.balance_of(
                listing.seller,
                listing.nft_mint,
            ) - 1
            &&& settled.currency_of(ctx.buyer) == ledger.currency_of(ctx.buyer) - listing.price
            &&& settled.currency_of(listing.seller) == ledger.currency_of(listing.seller)
                + listing.price - fee
            &&& settled.currency_of(ctx.marketplace.authority) == ledger.currency_of(
                ctx.marketplace.authority,
            ) + fee
        }),
{
    let listing = ctx.listing->0;
    let (after, sold) = ctx.settle_spec(authority)->Ok_0;
    let paid = ledger.pay(sold.seller_payment)->0;
    assert(ledger.pay(sold.seller_payment) is Some);
    let charged = match sold.fee_payment {
        None => paid,
        Some(fee_payment) => paid.pay(fee_payment)->0,
    };
    assert(charged.transfer_via_delegate(sold.transfer) == ledger.settle(sold));
}

/// After a listing is cancelled, the ledger permits no delegated transfer of
/// the asset out of the seller's custody, whoever claims to be the delegate,
/// and a purchase of the listing is refused with `ListingNotActive`.
pub proof fn lemma_cancel_revokes(
    ctx: CancelListing,
    authority: Option<Address>,
    ledger: Ledger,
    transfer: DelegatedTransfer,
    buyer: BuyNFT,
    buyer_authority: Option<Address>,
)
    requires
        ctx.cancel_spec(authority) is Ok,
        transfer.asset == ctx.listing->0.nft_mint,
        transfer.from == ctx.listing->0.seller,
        ctx.cancel_spec(authority) matches Ok((after, _)) && buyer.listing == after.listing,
    ensures
        ({
            let (after, canceled) = ctx.cancel_spec(authority)->Ok_0;
            let revoked = ledger.revoke(canceled.revoke);
            &&& !is_active(after.listing)
            &&& revoked.delegation_of(ctx.listing->0.seller, ctx.listing->0.nft_mint) is None
            &&& !revoked.permits(transfer)
            &&& revoked.transfer_via_delegate(transfer) is None
            &&& buyer.settle_spec(buyer_authority) == Err::<
                (BuyNFT, Sold),
                ErrorCode,
            >(ErrorCode::ListingNotActive)
        }),
{
}

/// Of two purchases of one listing, taken one after the other, only the first
/// can succeed: the second is refused with `ListingNotActive`, and a refused
/// purchase changes nothing.
pub proof fn lemma_sold_once(
    first: BuyNFT,
    first_authority: Option<Address>,
    second: BuyNFT,
    second_authority: Option<Address>,
)
    requires
        first.settle_spec(first_authority) matches Ok((after, _)) && second.listing
            == after.listing,
    ensures
        second.settle_spec(second_authority) == Err::<(BuyNFT, Sold), ErrorCode>(
            ErrorCode::ListingNotActive,
        ),
{
}

/// How a listing moves through its life: it is created active; an update
/// leaves it active; a sale and a cancellation start from an active listing
/// and leave it inactive.
pub proof fn lemma_lifecycle(
    list: ListNFT,
    update: UpdateListing,
    buy: BuyNFT,
    cancel: CancelListing,
    price: u64,
    custody: Option<TokenHolding>,
    derived: Option<(Address, u8)>,
    authority: Option<Address>,
)
    ensures
        list.create_spec(price, custody, derived) matches Ok((after, _)) ==> listing_state(
            list.listing,
        ) is Uncreated && listing_state(after.listing) is Active,
        update.update_spec(price, custody, authority) matches Ok((after, _)) ==> listing_state(
            Some(after.listing),
        ) is Active,
        buy.settle_spec(authority) matches Ok((after, _)) ==> listing_state(buy.listing) is Active
            && listing_state(after.listing) is Inactive,
        cancel.cancel_spec(authority) matches Ok((after, _)) ==> listing_state(cancel.listing)
            is Active && listing_state(after.listing) is Inactive,
{
}

/// Whether the ledger holds, for a slot with an active listing, a delegation
/// of exactly one unit of the asset from the seller to `authority`.
pub open spec fn active_is_delegated(
    slot: Option<NFTListing>,
    authority: Address,
    ledger: Ledger,
) -> bool {
    is_active(slot) ==> ledger.delegation_of(slot->0.seller, slot->0.nft_mint) == Some(
        Delegation { delegate: authority, amount: 1 },
    )
}

/// Every operation that succeeds leaves an active listing delegated: once the
/// ledger has carried out the grant of a new or updated listing, it holds a
/// delegation of one unit to the listing's authority; a sale and a
/// cancellation leave no active listing behind.
pub proof fn lemma_active_listing_is_delegated(
    list: ListNFT,
    update: UpdateListing,
    buy: BuyNFT,
    cancel: CancelListing,
    price: u64,
    custody: Option<TokenHolding>,
    derived: Option<(Address, u8)>,
    authority: Option<Address>,
    ledger: Ledger,
)
    ensures
        list.create_spec(price, custody, derived) matches Ok((after, listed))
            ==> active_is_delegated(
            after.listing,
            listed.grant.delegate,
            ledger.grant(listed.grant),
        ),
        update.update_spec(price, custody, authority) matches Ok((after, updated))
            ==> active_is_delegated(
            Some(after.listing),
            updated.grant.delegate,
            ledger.grant(updated.grant),
        ),
        buy.settle_spec(authority) matches Ok((after, sold)) ==> active_is_delegated(
            after.listing,
            sold.transfer.delegate,
            ledger,
        ),
        cancel.cancel_spec(authority) matches Ok((after, canceled)) ==> active_is_delegated(
            after.listing,
            canceled.event.listing,
            ledger.revoke(canceled.revoke),
        ),
{
}

} // verus!
