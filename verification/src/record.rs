//! The record of one escrow agreement.

use vstd::prelude::*;
use crate::error::{EscrowError, TransferFailed};
use crate::identity::Identity;
use crate::model::{attempted, reply, settled, Operation, RecordView};
use crate::state::EscrowState;
use crate::transfer::{accepts, Holder, Transfer};

verus! {

/// The parties, the amount and the state of one agreement.
///
/// The parties and the amount are fixed when the record is made. Only the state changes, and
/// only through [`attempt`](EscrowRecord::attempt) and [`settle`](EscrowRecord::settle).
#[derive(Debug, PartialEq, Eq)]
pub struct EscrowRecord {
    buyer: Identity,
    seller: Identity,
    arbiter: Identity,
    amount: i128,
    state: EscrowState,
}

impl View for EscrowRecord {
    type V = RecordView;

    closed spec fn view(&self) -> RecordView {
        RecordView {
            buyer: self.buyer@,
            seller: self.seller@,
            arbiter: self.arbiter@,
            amount: self.amount as int,
            state: self.state,
        }
    }
}

impl Clone for EscrowRecord {
    fn clone(&self) -> (copy: EscrowRecord)
        ensures
            copy@ == self@,
    {
        EscrowRecord {
            buyer: self.buyer.clone(),
            seller: self.seller.clone(),
            arbiter: self.arbiter.clone(),
            amount: self.amount,
            state: self.state,
        }
    }
}

impl EscrowRecord {
    /// The record of a fresh agreement, in state `Created`.
    pub fn new(buyer: Identity, seller: Identity, arbiter: Identity, amount: i128) -> (record:
        EscrowRecord)
        ensures
            record@ == RecordView::created(buyer@, seller@, arbiter@, amount as int),
    {
        EscrowRecord { buyer, seller, arbiter, amount, state: EscrowState::Created }
    }

    /// The record with exactly the given contents, as read back from where it was kept.
    pub fn restore(
        buyer: Identity,
        seller: Identity,
        arbiter: Identity,
        amount: i128,
        state: EscrowState,
    ) -> (record: EscrowRecord)
        ensures
            record@ == (RecordView {
                buyer: buyer@,
                seller: seller@,
                arbiter: arbiter@,
                amount: amount as int,
                state,
            }),
    {
        EscrowRecord { buyer, seller, arbiter, amount, state }
    }

    /// Decides whether `caller` may perform `op` now, without changing anything, and names
    /// the movement of value that the operation asks for.
    pub fn check(&self, op: Operation, caller: &Identity, authorized: bool) -> (result: Result<
        Transfer,
        EscrowError,
    >)
        ensures
            match self@.verdict(op, caller@, authorized) {
                Ok(movement) => result is Ok && result->Ok_0@ == movement,
                Err(e) => result == Err::<Transfer, EscrowError>(e),
            },
    {
        if !authorized {
            return Err(EscrowError::Unauthorized);
        }
        let entitled = match op {
            Operation::Fund => caller.same_as(&self.buyer),
            Operation::Release => caller.same_as(&self.arbiter),
            Operation::Refund => caller.same_as(&self.arbiter),
        };
        if !entitled {
            return Err(EscrowError::WrongParty);
        }
        if self.state != op.from_state() {
            return Err(EscrowError::IllegalTransition);
        }
        let order = match op {
            Operation::Fund => Transfer {
                from: Holder::Party(self.buyer.clone()),
                to: Holder::Custody,
                amount: self.amount,
            },
            Operation::Release => Transfer {
                from: Holder::Custody,
                to: Holder::Party(self.seller.clone()),
                amount: self.amount,
            },
            Operation::Refund => Transfer {
                from: Holder::Custody,
                to: Holder::Party(self.buyer.clone()),
                amount: self.amount,
            },
        };
        Ok(order)
    }

    /// Attempts `op` on behalf of `caller`.
    ///
    /// Where the attempt is admitted, the record first takes the operation's target state and
    /// `transfer` is then asked to move the value. If it cannot, the record goes back to the
    /// state it had. Where the attempt is not admitted, nothing is changed and `transfer` is
    /// not called.
    pub fn attempt<F: FnOnce(Transfer) -> Result<(), TransferFailed>>(
        &mut self,
        op: Operation,
        caller: &Identity,
        authorized: bool,
        transfer: F,
    ) -> (result: Result<(), EscrowError>)
        requires
            old(self)@.verdict(op, caller@, authorized) is Ok ==> accepts(
                transfer,
                old(self)@.movement(op),
            ),
        ensures
            attempted(
                Some(old(self)@),
                op,
                caller@,
                authorized,
                transfer,
                result,
                Some(final(self)@),
            ),
    {
        match self.check(op, caller, authorized) {
            Err(e) => Err(e),
            Ok(order) => {
                let before = self.state;
                self.state = op.to_state();
                match transfer(order) {
                    Ok(()) => Ok(()),
                    Err(_) => {
                        self.state = before;
                        Err(EscrowError::TransferError)
                    },
                }
            },
        }
    }

    /// Records what became of an attempt at `op` whose movement of value was carried out
    /// by the caller of this function: `outcome` is what the value-transfer capability
    /// answered when it was asked for the movement that [`check`](Self::check) named.
    ///
    /// The attempt is decided anew. Where it is admitted and the value was moved, the record
    /// takes the operation's target state; in every other case it stays as it is.
    pub fn settle(
        &mut self,
        op: Operation,
        caller: &Identity,
        authorized: bool,
        outcome: Result<(), TransferFailed>,
    ) -> (result: Result<(), EscrowError>)
        ensures
            result == reply(Some(old(self)@), op, caller@, authorized, outcome is Ok),
            Some(final(self)@) == settled(
                Some(old(self)@),
                op,
                caller@,
                authorized,
                outcome is Ok,
            ),
    {
        match self.check(op, caller, authorized) {
            Err(e) => Err(e),
            Ok(_) => match outcome {
                Ok(()) => {
                    self.state = op.to_state();
                    Ok(())
                },
                Err(_) => Err(EscrowError::TransferError),
            },
        }
    }

    /// The party who deposits.
    pub fn buyer(&self) -> (id: &Identity)
        ensures
            id@ == self@.buyer,
    {
        &self.buyer
    }

    /// The party who is paid on a release.
    pub fn seller(&self) -> (id: &Identity)
        ensures
            id@ == self@.seller,
    {
        &self.seller
    }

    /// The party who decides between release and refund.
    pub fn arbiter(&self) -> (id: &Identity)
        ensures
            id@ == self@.arbiter,
    {
        &self.arbiter
    }

    /// The amount under escrow.
    pub fn amount(&self) -> (amount: i128)
        ensures
            amount == self@.amount,
    {
        self.amount
    }

    /// The state the agreement is in.
    pub fn state(&self) -> (state: EscrowState)
        ensures
            state == self@.state,
    {
        self.state
    }
}

} // verus!
