//! The fee split of a sale.

use vstd::prelude::*;
use crate::address::Address;

verus! {

/// The number of basis points in one whole.
pub const BASIS_POINTS: u64 = 10000;

/// The platform's share of `price` at `fee_bps` basis points, rounded down.
pub open spec fn fee_of(price: u64, fee_bps: u16) -> int {
    (price * fee_bps) / 10000
}

/// How a price is divided between the platform and the seller.
#[derive(Clone, Copy, Debug, PartialEq, Eq)]
pub struct FeeSplit {
    pub fee_amount: u64,
    pub seller_amount: u64,
}

/// A transfer of native currency from one wallet to another.
#[derive(Clone, Copy, Debug, PartialEq, Eq)]
pub struct Payment {
    pub from: Address,
    pub to: Address,
    pub amount: u64,
}

/// At no more than a whole, the fee never exceeds the price.
pub proof fn lemma_fee_within_price(price: u64, fee_bps: u16)
    requires
        fee_bps <= BASIS_POINTS,
    ensures
        0 <= fee_of(price, fee_bps) <= price,
{
    assert(0 <= price * fee_bps <= price * 10000) by (nonlinear_arith)
        requires
            0 <= fee_bps <= 10000,
            0 <= price,
    ;
}

/// Divides `price` at `fee_bps` basis points. The product is taken in 128
/// bits, so that it is exact for every price.
pub fn split_price(price: u64, fee_bps: u16) -> (r: FeeSplit)
    requires
        fee_of(price, fee_bps) <= price,
    ensures
        r.fee_amount == fee_of(price, fee_bps),
        r.fee_amount + r.seller_amount == price,
{
    assert(0 <= price * fee_bps <= 0xffff_ffff_ffff_ffff * 0xffff) by (nonlinear_arith)
        requires
            0 <= price <= 0xffff_ffff_ffff_ffff,
            0 <= fee_bps <= 0xffff,
    ;
    let product: u128 = (price as u128) * (fee_bps as u128);
    let fee_amount: u64 = (product / 10000) as u64;
    FeeSplit { fee_amount, seller_amount: price - fee_amount }
}

/// Whether `price` can be divided at `fee_bps` basis points: whether the fee
/// is at most the price. It is for every price where the rate is at most a
/// whole.
pub fn fee_within_price(price: u64, fee_bps: u16) -> (r: bool)
    ensures
        r == (fee_of(price, fee_bps) <= price),
        fee_bps <= BASIS_POINTS ==> r,
{
    assert(0 <= price * fee_bps <= 0xffff_ffff_ffff_ffff * 0xffff) by (nonlinear_arith)
        requires
            0 <= price <= 0xffff_ffff_ffff_ffff,
            0 <= fee_bps <= 0xffff,
    ;
    proof {
        if fee_bps <= BASIS_POINTS {
            lemma_fee_within_price(price, fee_bps);
        }
    }
    let product: u128 = (price as u128) * (fee_bps as u128);
    product / 10000 <= price as u128
}

/// Divides `price` at `fee_bps` basis points, where the fee is at most the
/// price.
pub fn checked_split_price(price: u64, fee_bps: u16) -> (r: Option<FeeSplit>)
    ensures
        match r {
            Some(split) => {
                &&& split.fee_amount == fee_of(price, fee_bps)
                &&& split.fee_amount + split.seller_amount == price
            },
            None => fee_of(price, fee_bps) > price,
        },
        fee_bps <= BASIS_POINTS ==> r is Some,
{
    if fee_within_price(price, fee_bps) {
        Some(split_price(price, fee_bps))
    } else {
        None
    }
}

} // verus!
