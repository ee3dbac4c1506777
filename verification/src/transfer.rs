//! The movement of value that a transition asks for.

use vstd::prelude::*;
use crate::error::TransferFailed;
use crate::identity::Identity;

verus! {

/// One end of a transfer: a party's own holdings, or the custody of the escrow itself.
#[derive(Debug, PartialEq, Eq, Hash)]
pub enum Holder {
    /// The value held in trust while the agreement is funded.
    Custody,
    /// The holdings of the named party.
    Party(Identity),
}

/// The mathematical value of a [`Holder`].
pub enum HolderView {
    Custody,
    Party(Seq<char>),
}

impl View for Holder {
    type V = HolderView;

    open spec fn view(&self) -> HolderView {
        match self {
            Holder::Custody => HolderView::Custody,
            Holder::Party(id) => HolderView::Party(id@),
        }
    }
}

/// An instruction to move `amount` from one holder to another.
#[derive(Debug, PartialEq, Eq, Hash)]
pub struct Transfer {
    pub from: Holder,
    pub to: Holder,
    pub amount: i128,
}

/// The mathematical value of a [`Transfer`].
pub struct TransferView {
    pub from: HolderView,
    pub to: HolderView,
    pub amount: int,
}

impl View for Transfer {
    type V = TransferView;

    open spec fn view(&self) -> TransferView {
        TransferView { from: self.from@, to: self.to@, amount: self.amount as int }
    }
}

impl Clone for Holder {
    fn clone(&self) -> (copy: Holder)
        ensures
            copy@ == self@,
    {
        match self {
            Holder::Custody => Holder::Custody,
            Holder::Party(id) => Holder::Party(id.clone()),
        }
    }
}

impl Clone for Transfer {
    fn clone(&self) -> (copy: Transfer)
        ensures
            copy@ == self@,
    {
        Transfer { from: self.from.clone(), to: self.to.clone(), amount: self.amount }
    }
}

/// The capability `transfer` can be asked for `movement`.
pub open spec fn accepts<F: FnOnce(Transfer) -> Result<(), TransferFailed>>(
    transfer: F,
    movement: TransferView,
) -> bool {
    forall|order: Transfer| order@ == movement ==> #[trigger] transfer.requires((order,))
}

/// `moved` is an answer that the capability `transfer` may give when it is asked for
/// `movement`: `true` for success, `false` for failure.
pub open spec fn answers<F: FnOnce(Transfer) -> Result<(), TransferFailed>>(
    transfer: F,
    movement: TransferView,
    moved: bool,
) -> bool {
    exists|order: Transfer, outcome: Result<(), TransferFailed>|
        order@ == movement && #[trigger] transfer.ensures((order,), outcome) && moved
            == outcome is Ok
}

} // verus!
