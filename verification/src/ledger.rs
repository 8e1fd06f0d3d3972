//! What the instructions mean: a model of the currency and custody
//! subsystems that carry them out.
//!
//! The marketplace holds neither currency nor assets. It asks the host to
//! move them, and the host refuses an instruction that the ledger does not
//! permit. This model states what each instruction does to the balances and
//! the delegations, so that the effect of an operation can be stated.

use vstd::prelude::*;
use crate::accounts::Sold;
use crate::address::Address;
use crate::gateway::{DelegatedTransfer, Grant, Revoke};
use crate::settlement::Payment;

verus! {

/// A right of `delegate` to move up to `amount` units on an owner's behalf.
pub struct Delegation {
    pub delegate: Address,
    pub amount: nat,
}

/// The balances and delegations of every identity.
pub struct Ledger {
    /// Native currency by wallet.
    pub currency: Map<Address, nat>,
    /// Units in custody by asset and owner.
    pub assets: Map<(Address, Address), nat>,
    /// The delegation that an owner has given for an asset, by asset and
    /// owner: at most one.
    pub delegations: Map<(Address, Address), Delegation>,
}

impl Ledger {
    /// The native currency that `who` holds.
    pub open spec fn currency_of(self, who: Address) -> nat {
        if self.currency.dom().contains(who) {
            self.currency[who]
        } else {
            0
        }
    }

    /// The units of `asset` in `owner`'s custody.
    pub open spec fn balance_of(self, owner: Address, asset: Address) -> nat {
        if self.assets.dom().contains((asset, owner)) {
            self.assets[(asset, owner)]
        } else {
            0
        }
    }

    /// The delegation that `owner` has given for `asset`, if any.
    pub open spec fn delegation_of(self, owner: Address, asset: Address) -> Option<Delegation> {
        if self.delegations.dom().contains((asset, owner)) {
            Some(self.delegations[(asset, owner)])
        } else {
            None
        }
    }

    /// A grant replaces the owner's delegation for the asset.
    pub open spec fn grant(self, grant: Grant) -> Ledger {
        Ledger {
            delegations: self.delegations.insert(
                (grant.asset, grant.owner),
                Delegation { delegate: grant.delegate, amount: grant.amount as nat },
            ),
            ..self
        }
    }

    /// A revocation removes the owner's delegation for the asset, if there
    /// is one.
    pub open spec fn revoke(self, revoke: Revoke) -> Ledger {
        Ledger { delegations: self.delegations.remove((revoke.asset, revoke.owner)), ..self }
    }

    /// Whether a live delegation names the transfer's delegate and covers its
    /// amount.
    pub open spec fn permits(self, transfer: DelegatedTransfer) -> bool {
        match self.delegation_of(transfer.from, transfer.asset) {
            Some(delegation) => delegation.delegate == transfer.delegate && transfer.amount
                <= delegation.amount,
            None => false,
        }
    }

    /// A delegated transfer moves the units and uses up that much of the
    /// delegation. It is refused where the delegation does not permit it or
    /// the units are not there.
    pub open spec fn transfer_via_delegate(self, transfer: DelegatedTransfer) -> Option<Ledger> {
        if self.permits(transfer) && transfer.amount <= self.balance_of(
            transfer.from,
            transfer.asset,
        ) {
            let source = (transfer.asset, transfer.from);
            let target = (transfer.asset, transfer.to);
            let left = (self.delegations[source].amount - transfer.amount) as nat;
            let debited = self.assets.insert(
                source,
                (self.balance_of(transfer.from, transfer.asset) - transfer.amount) as nat,
            );
            let held: nat = if debited.dom().contains(target) {
                debited[target]
            } else {
                0
            };
            Some(
                Ledger {
                    assets: debited.insert(target, held + transfer.amount as nat),
                    delegations: if left == 0 {
                        self.delegations.remove(source)
                    } else {
                        self.delegations.insert(
                            source,
                            Delegation { delegate: transfer.delegate, amount: left },
                        )
                    },
                    ..self
                },
            )
        } else {
            None
        }
    }

    /// A payment moves currency from one wallet to another. It is refused
    /// where the payer does not hold the amount.
    pub open spec fn pay(self, payment: Payment) -> Option<Ledger> {
        if payment.amount <= self.currency_of(payment.from) {
            let debited = self.currency.insert(
                payment.from,
                (self.currency_of(payment.from) - payment.amount) as nat,
            );
            let held: nat = if debited.dom().contains(payment.to) {
                debited[payment.to]
            } else {
                0
            };
            Some(Ledger { currency: debited.insert(payment.to, held + payment.amount as nat), ..self })
        } else {
            None
        }
    }

    /// The steps of a sale, in order. The sale is refused as a whole where
    /// one of its steps is.
    pub open spec fn settle(self, sold: Sold) -> Option<Ledger> {
        match self.pay(sold.seller_payment) {
            None => None,
            Some(paid) => {
                let charged = match sold.fee_payment {
                    None => Some(paid),
                    Some(fee_payment) => paid.pay(fee_payment),
                };
                match charged {
                    None => None,
                    Some(ledger) => ledger.transfer_via_delegate(sold.transfer),
                }
            },
        }
    }
}

} // verus!
