use std::collections::HashMap;

use anchor_lang::prelude::Pubkey;
use anchor_lang::solana_program::program_option::COption;
use anchor_lang::solana_program::program_pack::Pack;
use anchor_spl::token::spl_token::state::{Account, AccountState};
use nft_marketplace::{
    buy_nft, cancel_listing, list_nft, update_listing, Address, BuyNFT, CancelListing,
    DelegatedTransfer, ErrorCode, Grant, ListNFT, Marketplace, Payment, Revoke, Sold,
    UpdateListing,
};

/// Balances and delegations, to carry instructions out on.
#[derive(Clone, Debug, PartialEq)]
struct Book {
    currency: HashMap<[u8; 32], u64>,
    assets: HashMap<([u8; 32], [u8; 32]), u64>,
    delegations: HashMap<([u8; 32], [u8; 32]), ([u8; 32], u64)>,
}

impl Book {
    fn new() -> Book {
        Book { currency: HashMap::new(), assets: HashMap::new(), delegations: HashMap::new() }
    }

    fn currency_of(&self, who: &Address) -> u64 {
        *self.currency.get(&who.to_bytes()).unwrap_or(&0)
    }

    fn balance_of(&self, owner: &Address, asset: &Address) -> u64 {
        *self.assets.get(&(asset.to_bytes(), owner.to_bytes())).unwrap_or(&0)
    }

    fn grant(&mut self, grant: &Grant) {
        self.delegations.insert(
            (grant.asset.to_bytes(), grant.owner.to_bytes()),
            (grant.delegate.to_bytes(), grant.amount),
        );
    }

    fn revoke(&mut self, revoke: &Revoke) {
        self.delegations.remove(&(revoke.asset.to_bytes(), revoke.owner.to_bytes()));
    }

    fn pay(&mut self, payment: &Payment) -> bool {
        let held = self.currency_of(&payment.from);
        if payment.amount > held {
            return false;
        }
        self.currency.insert(payment.from.to_bytes(), held - payment.amount);
        let target = self.currency_of(&payment.to);
        self.currency.insert(payment.to.to_bytes(), target + payment.amount);
        true
    }

    fn transfer_via_delegate(&mut self, transfer: &DelegatedTransfer) -> bool {
        let source = (transfer.asset.to_bytes(), transfer.from.to_bytes());
        let target = (transfer.asset.to_bytes(), transfer.to.to_bytes());
        let allowed = match self.delegations.get(&source) {
            Some((delegate, amount)) => {
                *delegate == transfer.delegate.to_bytes() && transfer.amount <= *amount
            }
            None => false,
        };
        let held = self.balance_of(&transfer.from, &transfer.asset);
        if !allowed || transfer.amount > held {
            return false;
        }
        let left = self.delegations[&source].1 - transfer.amount;
        if left == 0 {
            self.delegations.remove(&source);
        } else {
            self.delegations.insert(source, (transfer.delegate.to_bytes(), left));
        }
        self.assets.insert(source, held - transfer.amount);
        let there = self.balance_of(&transfer.to, &transfer.asset);
        self.assets.insert(target, there + transfer.amount);
        true
    }

    /// All of a sale or none of it.
    fn settle(&mut self, sold: &Sold) -> bool {
        let mut next = self.clone();
        let done = next.pay(&sold.seller_payment)
            && sold.fee_payment.map_or(true, |fee| next.pay(&fee))
            && next.transfer_via_delegate(&sold.transfer);
        if done {
            *self = next;
        }
        done
    }
}

fn numbered(first: u8) -> Address {
    let mut bytes = [0u8; 32];
    for (i, b) in bytes.iter_mut().enumerate() {
        *b = first.wrapping_add(i as u8);
    }
    Address::new(bytes)
}

fn program() -> Address {
    numbered(200)
}

fn admin() -> Address {
    numbered(150)
}

fn seller() -> Address {
    numbered(10)
}

fn buyer() -> Address {
    numbered(60)
}

fn mint() -> Address {
    numbered(110)
}

fn custody(amount: u64) -> Vec<u8> {
    let account = Account {
        mint: Pubkey::new_from_array(mint().to_bytes()),
        owner: Pubkey::new_from_array(seller().to_bytes()),
        amount,
        delegate: COption::None,
        state: AccountState::Initialized,
        is_native: COption::None,
        delegated_amount: 0,
        close_authority: COption::None,
    };
    let mut data = vec![0u8; Account::LEN];
    Account::pack_into_slice(&account, &mut data);
    data
}

fn registry(fee: u16) -> Marketplace {
    Marketplace { authority: admin(), fee, bump: 255 }
}

fn opening_book() -> Book {
    let mut book = Book::new();
    book.currency.insert(buyer().to_bytes(), 5_000_000_000);
    book.currency.insert(seller().to_bytes(), 7);
    book.assets.insert((mint().to_bytes(), seller().to_bytes()), 1);
    book
}

fn listed(book: &mut Book, price: u64) -> ListNFT {
    let mut ctx = ListNFT {
        program_id: program(),
        listing: None,
        marketplace: registry(250),
        seller: seller(),
        nft_mint: mint(),
        nft_token_account: custody(book.balance_of(&seller(), &mint())),
    };
    let out = list_nft(&mut ctx, price).unwrap();
    book.grant(&out.grant);
    ctx
}

#[test]
fn listing_installs_a_delegation_of_one_unit() {
    let mut book = opening_book();
    let ctx = listed(&mut book, 1_000_000_000);
    let (authority, _) = Pubkey::find_program_address(
        &[b"listing", &mint().to_bytes(), &seller().to_bytes()],
        &Pubkey::new_from_array(program().to_bytes()),
    );
    assert_eq!(
        book.delegations.get(&(mint().to_bytes(), seller().to_bytes())),
        Some(&(authority.to_bytes(), 1))
    );
    assert!(ctx.listing.unwrap().active);
    assert_eq!(book.balance_of(&seller(), &mint()), 1);
}

#[test]
fn sale_moves_the_price_and_the_asset() {
    let mut book = opening_book();
    let ctx = listed(&mut book, 1_000_000_000);
    let mut purchase = BuyNFT {
        program_id: program(),
        marketplace: registry(250),
        listing: ctx.listing,
        buyer: buyer(),
    };
    assert!(purchase.check_fee_fits());
    let sold = buy_nft(&mut purchase).unwrap();
    assert!(book.settle(&sold));
    assert!(!purchase.listing.unwrap().active);
    assert_eq!(book.balance_of(&buyer(), &mint()), 1);
    assert_eq!(book.balance_of(&seller(), &mint()), 0);
    assert_eq!(book.currency_of(&buyer()), 5_000_000_000 - 1_000_000_000);
    assert_eq!(book.currency_of(&seller()), 7 + 975_000_000);
    assert_eq!(book.currency_of(&admin()), 25_000_000);
}

#[test]
fn sale_that_the_buyer_cannot_pay_moves_nothing() {
    let mut book = opening_book();
    book.currency.insert(buyer().to_bytes(), 999_999_999);
    let ctx = listed(&mut book, 1_000_000_000);
    let before = book.clone();
    let mut purchase = BuyNFT {
        program_id: program(),
        marketplace: registry(250),
        listing: ctx.listing,
        buyer: buyer(),
    };
    let sold = buy_nft(&mut purchase).unwrap();
    assert!(!book.settle(&sold));
    assert_eq!(book, before);
}

#[test]
fn refused_purchase_hands_back_nothing_to_carry_out() {
    let book = opening_book();
    let before = book.clone();
    let mut purchase =
        BuyNFT { program_id: program(), marketplace: registry(250), listing: None, buyer: buyer() };
    assert_eq!(buy_nft(&mut purchase), Err(ErrorCode::ListingNotActive));
    assert_eq!(book, before);
}

#[test]
fn cancelled_listing_cannot_be_transferred_or_bought() {
    let mut book = opening_book();
    let ctx = listed(&mut book, 1_000_000_000);
    let listing = ctx.listing.unwrap();
    let mut purchase = BuyNFT {
        program_id: program(),
        marketplace: registry(250),
        listing: ctx.listing,
        buyer: buyer(),
    };
    let sold = buy_nft(&mut purchase).unwrap();

    let mut cancel =
        CancelListing { program_id: program(), listing: ctx.listing, seller: seller() };
    let canceled = cancel_listing(&mut cancel).unwrap();
    book.revoke(&canceled.revoke);
    assert_eq!(book.delegations.get(&(mint().to_bytes(), seller().to_bytes())), None);

    let before = book.clone();
    assert!(!book.transfer_via_delegate(&sold.transfer));
    assert!(!book.settle(&sold));
    assert_eq!(book, before);
    assert_eq!(book.balance_of(&seller(), &mint()), 1);

    let mut late = BuyNFT {
        program_id: program(),
        marketplace: registry(250),
        listing: cancel.listing,
        buyer: buyer(),
    };
    assert_eq!(buy_nft(&mut late), Err(ErrorCode::ListingNotActive));
    assert_eq!(cancel.listing.unwrap().seller, listing.seller);
}

#[test]
fn update_renews_a_delegation_that_was_lost() {
    let mut book = opening_book();
    let ctx = listed(&mut book, 1_000);
    book.revoke(&Revoke { owner: seller(), asset: mint() });
    let mut update = UpdateListing {
        program_id: program(),
        listing: ctx.listing.unwrap(),
        seller: seller(),
        nft_token_account: custody(1),
    };
    let updated = update_listing(&mut update, 2_000).unwrap();
    book.grant(&updated.grant);
    let mut purchase = BuyNFT {
        program_id: program(),
        marketplace: registry(0),
        listing: Some(update.listing),
        buyer: buyer(),
    };
    let sold = buy_nft(&mut purchase).unwrap();
    assert!(book.settle(&sold));
    assert_eq!(book.balance_of(&buyer(), &mint()), 1);
    assert_eq!(book.currency_of(&seller()), 7 + 2_000);
    assert_eq!(book.currency_of(&admin()), 0);
}

#[test]
fn only_one_of_two_purchases_commits() {
    let mut book = opening_book();
    let other = numbered(90);
    book.currency.insert(other.to_bytes(), 5_000_000_000);
    let ctx = listed(&mut book, 1_000_000_000);

    let mut first = BuyNFT {
        program_id: program(),
        marketplace: registry(250),
        listing: ctx.listing,
        buyer: buyer(),
    };
    let sold = buy_nft(&mut first).unwrap();
    assert!(book.settle(&sold));
    let after_first = book.clone();

    let mut second = BuyNFT {
        program_id: program(),
        marketplace: registry(250),
        listing: first.listing,
        buyer: other,
    };
    let slot = second.listing;
    assert_eq!(buy_nft(&mut second), Err(ErrorCode::ListingNotActive));
    assert_eq!(second.listing, slot);
    assert_eq!(book, after_first);
    assert_eq!(book.balance_of(&other, &mint()), 0);
    assert_eq!(book.currency_of(&other), 5_000_000_000);
}
