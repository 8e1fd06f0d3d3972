//! The authorization gateway: derived authorities and the delegated transfer
//! right.

use vstd::prelude::*;
use crate::address::Address;

verus! {

#[verifier::external_type_specification]
#[verifier::external_body]
pub struct ExPubkeyError(anchor_lang::solana_program::pubkey::PubkeyError);

/// What `Pubkey::try_find_program_address` returns for these seeds and this
/// program: the derived address and its bump seed, if there is one.
pub uninterp spec fn found_program_address(seeds: Seq<Seq<u8>>, program_id: Seq<u8>) -> Option<
    (Seq<u8>, u8),
>;

/// What `Pubkey::create_program_address` returns for these seeds and this
/// program: the derived address, if the seeds give one.
pub uninterp spec fn created_program_address(seeds: Seq<Seq<u8>>, program_id: Seq<u8>) -> Option<
    Seq<u8>,
>;

/// Calls `Pubkey::try_find_program_address`, which computes its result from
/// its arguments alone. The contract names the result. It also claims that a
/// result proves itself: the function tries the bump seeds from 255 downwards
/// and returns the first for which `Pubkey::create_program_address` accepts
/// the seeds followed by that bump seed, together with the address that call
/// gave.
#[verifier::external_body]
fn try_find_program_address(seeds: &Vec<Vec<u8>>, program_id: &Address) -> (r: Option<
    (Address, u8),
>)
    ensures
        match r {
            Some((address, bump)) => {
                &&& found_program_address(seeds.deep_view(), program_id@) == Some(
                    (address@, bump),
                )
                &&& created_program_address(seeds.deep_view().push(seq![bump]), program_id@)
                    == Some(address@)
            },
            None => found_program_address(seeds.deep_view(), program_id@) is None,
        },
{
    let parts: Vec<&[u8]> = seeds.iter().map(|s| s.as_slice()).collect();
    let id = anchor_lang::prelude::Pubkey::new_from_array(program_id.bytes);
    anchor_lang::prelude::Pubkey::try_find_program_address(&parts, &id).map(
        |(key, bump)| (Address { bytes: key.to_bytes() }, bump),
    )
}

/// Calls `Pubkey::create_program_address`, which computes its result from
/// its arguments alone. The contract names the result, and claims nothing
/// else of it.
#[verifier::external_body]
fn create_program_address(seeds: &Vec<Vec<u8>>, program_id: &Address) -> (r: Result<
    Address,
    anchor_lang::solana_program::pubkey::PubkeyError,
>)
    ensures
        match r {
            Ok(address) => created_program_address(seeds.deep_view(), program_id@) == Some(
                address@,
            ),
            Err(_) => created_program_address(seeds.deep_view(), program_id@) is None,
        },
{
    let parts: Vec<&[u8]> = seeds.iter().map(|s| s.as_slice()).collect();
    let id = anchor_lang::prelude::Pubkey::new_from_array(program_id.bytes);
    anchor_lang::prelude::Pubkey::create_program_address(&parts, &id).map(
        |key| Address { bytes: key.to_bytes() },
    )
}

/// Grants `delegate` the right to move `amount` units of `asset` out of
/// `owner`'s custody. It replaces any delegation that `owner` has given for
/// this asset.
#[derive(Clone, Copy, Debug, PartialEq, Eq)]
pub struct Grant {
    pub owner: Address,
    pub asset: Address,
    pub delegate: Address,
    pub amount: u64,
}

/// Withdraws the delegation that `owner` has given for `asset`, if any.
#[derive(Clone, Copy, Debug, PartialEq, Eq)]
pub struct Revoke {
    pub owner: Address,
    pub asset: Address,
}

/// Moves `amount` units of `asset` from `from`'s custody to `to`'s, on the
/// authority of `delegate`. The delegate holds no key: the listing's seeds and
/// `bump` prove it.
#[derive(Clone, Copy, Debug, PartialEq, Eq)]
pub struct DelegatedTransfer {
    pub asset: Address,
    pub from: Address,
    pub to: Address,
    pub amount: u64,
    pub delegate: Address,
    pub bump: u8,
}

/// The namespace of listing authorities: the bytes of `listing`.
pub open spec fn listing_namespace() -> Seq<u8> {
    seq![108u8, 105u8, 115u8, 116u8, 105u8, 110u8, 103u8]
}

/// The seeds from which a listing's authority derives: the namespace, the
/// asset and the seller.
pub open spec fn listing_seeds(nft_mint: Address, seller: Address) -> Seq<Seq<u8>> {
    seq![listing_namespace(), nft_mint@, seller@]
}

/// The seeds that prove a listing's authority: its seeds and its bump seed.
pub open spec fn listing_signer_seeds(nft_mint: Address, seller: Address, bump: u8) -> Seq<
    Seq<u8>,
> {
    listing_seeds(nft_mint, seller).push(seq![bump])
}

/// The authority that derives from a listing's seeds, with its bump seed.
pub open spec fn derived_listing(nft_mint: Address, seller: Address, program_id: Address)
    -> Option<(Address, u8)> {
    match found_program_address(listing_seeds(nft_mint, seller), program_id@) {
        Some((address, bump)) => Some((Address::of_bytes(address), bump)),
        None => None,
    }
}

/// The authority that a listing's seeds and bump seed prove.
pub open spec fn listing_authority(
    nft_mint: Address,
    seller: Address,
    bump: u8,
    program_id: Address,
) -> Option<Address> {
    match created_program_address(listing_signer_seeds(nft_mint, seller, bump), program_id@) {
        Some(address) => Some(Address::of_bytes(address)),
        None => None,
    }
}

fn namespace_bytes() -> (r: Vec<u8>)
    ensures
        r@ == listing_namespace(),
{
    let mut out: Vec<u8> = Vec::new();
    out.push(108u8);
    out.push(105u8);
    out.push(115u8);
    out.push(116u8);
    out.push(105u8);
    out.push(110u8);
    out.push(103u8);
    assert(out@ =~= listing_namespace());
    out
}

/// Builds the seed list of a listing.
pub fn seeds_of_listing(nft_mint: &Address, seller: &Address) -> (r: Vec<Vec<u8>>)
    ensures
        r.deep_view() == listing_seeds(*nft_mint, *seller),
{
    let mut out: Vec<Vec<u8>> = Vec::new();
    out.push(namespace_bytes());
    out.push(nft_mint.to_vec());
    out.push(seller.to_vec());
    assert(out.deep_view() =~~= listing_seeds(*nft_mint, *seller));
    out
}

/// Derives the authority of the listing of `nft_mint` by `seller`.
pub fn find_listing_address(nft_mint: &Address, seller: &Address, program_id: &Address) -> (r:
    Option<(Address, u8)>)
    ensures
        r == derived_listing(*nft_mint, *seller, *program_id),
        r matches Some((address, bump)) ==> listing_authority(
            *nft_mint,
            *seller,
            bump,
            *program_id,
        ) == Some(address),
{
    let seeds = seeds_of_listing(nft_mint, seller);
    let found = try_find_program_address(&seeds, program_id);
    proof {
        if let Some((address, _)) = found {
            Address::lemma_of_bytes(address);
        }
    }
    found
}

/// The namespace of the registry: the bytes of `marketplace`.
pub open spec fn marketplace_namespace() -> Seq<u8> {
    seq![109u8, 97u8, 114u8, 107u8, 101u8, 116u8, 112u8, 108u8, 97u8, 99u8, 101u8]
}

/// The seeds from which the registry's address derives.
pub open spec fn marketplace_seeds() -> Seq<Seq<u8>> {
    seq![marketplace_namespace()]
}

/// The registry's address under a program, with its bump seed.
pub open spec fn derived_marketplace(program_id: Address) -> Option<(Address, u8)> {
    match found_program_address(marketplace_seeds(), program_id@) {
        Some((address, bump)) => Some((Address::of_bytes(address), bump)),
        None => None,
    }
}

/// Builds the seed list of the registry.
pub fn seeds_of_marketplace() -> (r: Vec<Vec<u8>>)
    ensures
        r.deep_view() == marketplace_seeds(),
{
    let mut name: Vec<u8> = Vec::new();
    name.push(109u8);
    name.push(97u8);
    name.push(114u8);
    name.push(107u8);
    name.push(101u8);
    name.push(116u8);
    name.push(112u8);
    name.push(108u8);
    name.push(97u8);
    name.push(99u8);
    name.push(101u8);
    assert(name@ =~= marketplace_namespace());
    let mut out: Vec<Vec<u8>> = Vec::new();
    out.push(name);
    assert(out.deep_view() =~~= marketplace_seeds());
    out
}

/// Derives the registry's address under `program_id`.
pub fn find_marketplace_address(program_id: &Address) -> (r: Option<(Address, u8)>)
    ensures
        r == derived_marketplace(*program_id),
{
    let seeds = seeds_of_marketplace();
    let found = try_find_program_address(&seeds, program_id);
    proof {
        if let Some((address, _)) = found {
            Address::lemma_of_bytes(address);
        }
    }
    found
}

/// Builds the seed list that proves a listing's authority.
pub fn signer_seeds_of_listing(nft_mint: &Address, seller: &Address, bump: u8) -> (r: Vec<
    Vec<u8>,
>)
    ensures
        r.deep_view() == listing_signer_seeds(*nft_mint, *seller, bump),
{
    let mut out = seeds_of_listing(nft_mint, seller);
    let mut last: Vec<u8> = Vec::new();
    last.push(bump);
    assert(last@ =~= seq![bump]);
    out.push(last);
    assert(out.deep_view() =~~= listing_signer_seeds(*nft_mint, *seller, bump));
    out
}

/// Recomputes the authority that a listing's seeds and bump seed prove.
pub fn resolve_listing_authority(
    nft_mint: &Address,
    seller: &Address,
    bump: u8,
    program_id: &Address,
) -> (r: Option<Address>)
    ensures
        r == listing_authority(*nft_mint, *seller, bump, *program_id),
{
    let seeds = signer_seeds_of_listing(nft_mint, seller, bump);
    match create_program_address(&seeds, program_id) {
        Ok(address) => {
            proof {
                Address::lemma_of_bytes(address);
            }
            Some(address)
        },
        Err(_) => None,
    }
}

/// Whether `claimed` is the authority of the listing of `nft_mint` by
/// `seller`: the authority is recomputed from the seeds and compared, so that
/// no key stands for it.
pub fn is_listing_authority(
    claimed: &Address,
    nft_mint: &Address,
    seller: &Address,
    bump: u8,
    program_id: &Address,
) -> (r: bool)
    ensures
        r == (listing_authority(*nft_mint, *seller, bump, *program_id) == Some(*claimed)),
{
    match resolve_listing_authority(nft_mint, seller, bump, program_id) {
        Some(address) => address == *claimed,
        None => false,
    }
}

} // verus!
