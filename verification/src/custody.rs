//! What the marketplace reads from the asset-custody subsystem.

use anchor_lang::AccountDeserialize;
use vstd::prelude::*;
use crate::address::Address;

verus! {

#[verifier::external_type_specification]
#[verifier::external_body]
pub struct ExAnchorError(anchor_lang::error::Error);

/// What a custody account says: which asset it holds, for whom, and how many
/// units.
#[derive(Clone, Copy, Debug, PartialEq, Eq)]
pub struct TokenHolding {
    pub mint: Address,
    pub owner: Address,
    pub amount: u64,
}

impl TokenHolding {
    /// Whether this is `owner`'s custody account of `asset`, holding exactly
    /// one unit.
    pub open spec fn is_single_unit(self, asset: Address, owner: Address) -> bool {
        self.mint == asset && self.owner == owner && self.amount == 1
    }

    pub fn holds_single_unit(&self, asset: &Address, owner: &Address) -> (r: bool)
        ensures
            r == self.is_single_unit(*asset, *owner),
    {
        self.mint == *asset && self.owner == *owner && self.amount == 1
    }
}

/// What `TokenAccount::try_deserialize` reads from the data of a custody
/// account: the asset, the owner and the amount, where the data is that of an
/// initialised token account.
pub uninterp spec fn token_account_fields(data: Seq<u8>) -> Option<(Seq<u8>, Seq<u8>, u64)>;

/// Calls `TokenAccount::try_deserialize` of `anchor_spl::token`, which
/// computes its result from the data alone, and keeps the asset, the owner
/// and the amount. The contract names what was read, and claims nothing else
/// of it.
#[verifier::external_body]
fn try_deserialize_token_account(data: &[u8]) -> (r: Result<
    TokenHolding,
    anchor_lang::error::Error,
>)
    ensures
        match r {
            Ok(holding) => token_account_fields(data@) == Some(
                (holding.mint@, holding.owner@, holding.amount),
            ),
            Err(_) => token_account_fields(data@) is None,
        },
{
    let mut buf: &[u8] = data;
    anchor_spl::token::TokenAccount::try_deserialize(&mut buf).map(
        |account| TokenHolding {
            mint: Address { bytes: account.mint.to_bytes() },
            owner: Address { bytes: account.owner.to_bytes() },
            amount: account.amount,
        },
    )
}

/// The holding that the data of a custody account states, if the data is that
/// of an initialised token account.
pub open spec fn token_holding(data: Seq<u8>) -> Option<TokenHolding> {
    match token_account_fields(data) {
        Some((mint, owner, amount)) => Some(
            TokenHolding {
                mint: Address::of_bytes(mint),
                owner: Address::of_bytes(owner),
                amount,
            },
        ),
        None => None,
    }
}

/// Reads a custody account's data.
pub fn read_token_account(data: &[u8]) -> (r: Option<TokenHolding>)
    ensures
        r == token_holding(data@),
{
    match try_deserialize_token_account(data) {
        Ok(holding) => {
            proof {
                Address::lemma_of_bytes(holding.mint);
                Address::lemma_of_bytes(holding.owner);
            }
            Some(holding)
        },
        Err(_) => None,
    }
}

} // verus!
