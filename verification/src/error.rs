//! Why an operation is refused.

use vstd::prelude::*;

verus! {

/// The reasons for which an operation fails. A failed operation changes
/// nothing.
#[derive(Clone, Copy, Debug, PartialEq, Eq, Structural)]
pub enum ErrorCode {
    /// The seller does not show a custody account of the asset that holds
    /// exactly one unit.
    InvalidNFTAmount,
    /// The operation needs an active listing, and the listing is inactive or
    /// absent.
    ListingNotActive,
    /// The caller is not the seller recorded in the listing.
    UnauthorizedAccess,
    /// The marketplace registry exists already.
    AlreadyInitialized,
    /// A listing exists already for this asset and seller.
    AlreadyExists,
    /// The custody account's data is not that of an initialised token
    /// account.
    InvalidTokenAccount,
    /// No authority derives from the seeds.
    InvalidSeeds,
}

} // verus!
