//! The escrow instance and its five operations.

use vstd::prelude::*;
use crate::error::{EscrowError, TransferFailed};
use crate::identity::Identity;
use crate::model::{
    attempted, init_reply, initialized, reply, settled, state_of, verdict, Escrow, Operation,
    RecordView,
};
use crate::record::EscrowRecord;
use crate::state::EscrowState;
use crate::transfer::{accepts, Transfer};

verus! {

/// One escrow instance: empty until it is set up, and holding exactly one record from then on.
///
/// Every change goes through [`init`](EscrowContract::init), [`fund`](EscrowContract::fund),
/// [`release`](EscrowContract::release) or [`refund`](EscrowContract::refund). The last three
/// take the caller, whether the caller was authenticated, and the capability that moves value.
#[derive(Debug, PartialEq, Eq)]
pub struct EscrowContract {
    record: Option<EscrowRecord>,
}

impl View for EscrowContract {
    type V = Escrow;

    closed spec fn view(&self) -> Escrow {
        match self.record {
            Some(record) => Some(record@),
            None => None,
        }
    }
}

impl Clone for EscrowContract {
    fn clone(&self) -> (copy: EscrowContract)
        ensures
            copy@ == self@,
    {
        match &self.record {
            Some(record) => EscrowContract { record: Some(record.clone()) },
            None => EscrowContract { record: None },
        }
    }
}

impl Default for EscrowContract {
    fn default() -> (contract: EscrowContract)
        ensures
            contract@ == None::<RecordView>,
    {
        EscrowContract::new()
    }
}

impl EscrowContract {
    /// An instance that has not been set up.
    pub fn new() -> (contract: EscrowContract)
        ensures
            contract@ == None::<RecordView>,
    {
        EscrowContract { record: None }
    }

    /// The instance that holds `record`, as read back from where it was kept.
    pub fn restore(record: Option<EscrowRecord>) -> (contract: EscrowContract)
        ensures
            contract@ == match record {
                Some(r) => Some(r@),
                None => None,
            },
    {
        EscrowContract { record }
    }

    /// The record of the agreement, once the instance has been set up.
    pub fn record(&self) -> (record: Option<&EscrowRecord>)
        ensures
            match record {
                Some(r) => self@ == Some(r@),
                None => self@ is None,
            },
    {
        self.record.as_ref()
    }

    /// Sets up the agreement between `buyer`, `seller` and `arbiter` over `amount`, in state
    /// `Created`. Any identities and any amount are taken as they come. An instance is set up
    /// once: a second call fails with `AlreadyInitialized` and changes nothing.
    pub fn init(&mut self, buyer: Identity, seller: Identity, arbiter: Identity, amount: i128) -> (result:
        Result<(), EscrowError>)
        ensures
            result == init_reply(old(self)@),
            final(self)@ == initialized(old(self)@, buyer@, seller@, arbiter@, amount as int),
    {
        if self.record.is_some() {
            return Err(EscrowError::AlreadyInitialized);
        }
        self.record = Some(EscrowRecord::new(buyer, seller, arbiter, amount));
        Ok(())
    }

    /// Attempts `op` on behalf of `caller`: the common form of `fund`, `release` and `refund`.
    pub fn transition<F: FnOnce(Transfer) -> Result<(), TransferFailed>>(
        &mut self,
        op: Operation,
        caller: &Identity,
        authorized: bool,
        transfer: F,
    ) -> (result: Result<(), EscrowError>)
        requires
            verdict(old(self)@, op, caller@, authorized) is Ok ==> accepts(
                transfer,
                old(self)@->0.movement(op),
            ),
        ensures
            attempted(old(self)@, op, caller@, authorized, transfer, result, final(self)@),
    {
        match &mut self.record {
            None => Err(EscrowError::NotInitialized),
            Some(record) => record.attempt(op, caller, authorized, transfer),
        }
    }

    /// Decides whether `caller` may perform `op` now, without changing anything, and names
    /// the movement of value that the operation asks for.
    pub fn check(&self, op: Operation, caller: &Identity, authorized: bool) -> (result: Result<
        Transfer,
        EscrowError,
    >)
        ensures
            match verdict(self@, op, caller@, authorized) {
                Ok(movement) => result is Ok && result->Ok_0@ == movement,
                Err(e) => result == Err::<Transfer, EscrowError>(e),
            },
    {
        match &self.record {
            None => Err(EscrowError::NotInitialized),
            Some(record) => record.check(op, caller, authorized),
        }
    }

    /// Records what became of an attempt at `op` whose movement of value was carried out
    /// by the caller of this function: `outcome` is what the value-transfer capability
    /// answered when it was asked for the movement that [`check`](Self::check) named.
    ///
    /// The attempt is decided anew. Where it is admitted and the value was moved, the
    /// agreement takes the operation's target state; in every other case the instance stays
    /// as it is.
    pub fn settle(
        &mut self,
        op: Operation,
        caller: &Identity,
        authorized: bool,
        outcome: Result<(), TransferFailed>,
    ) -> (result: Result<(), EscrowError>)
        ensures
            result == reply(old(self)@, op, caller@, authorized, outcome is Ok),
            final(self)@ == settled(old(self)@, op, caller@, authorized, outcome is Ok),
    {
        match &mut self.record {
            None => Err(EscrowError::NotInitialized),
            Some(record) => record.settle(op, caller, authorized, outcome),
        }
    }

    /// The buyer deposits: `Created` becomes `Funded`, and `transfer` is asked to move the
    /// amount from the buyer into custody.
    pub fn fund<F: FnOnce(Transfer) -> Result<(), TransferFailed>>(
        &mut self,
        caller: &Identity,
        authorized: bool,
        transfer: F,
    ) -> (result: Result<(), EscrowError>)
        requires
            verdict(old(self)@, Operation::Fund, caller@, authorized) is Ok ==> accepts(
                transfer,
                old(self)@->0.movement(Operation::Fund),
            ),
        ensures
            attempted(
                old(self)@,
                Operation::Fund,
                caller@,
                authorized,
                transfer,
                result,
                final(self)@,
            ),
    {
        self.transition(Operation::Fund, caller, authorized, transfer)
    }

    /// The arbiter decides for the seller: `Funded` becomes `Released`, and `transfer` is
    /// asked to move the amount from custody to the seller.
    pub fn release<F: FnOnce(Transfer) -> Result<(), TransferFailed>>(
        &mut self,
        caller: &Identity,
        authorized: bool,
        transfer: F,
    ) -> (result: Result<(), EscrowError>)
        requires
            verdict(old(self)@, Operation::Release, caller@, authorized) is Ok ==> accepts(
                transfer,
                old(self)@->0.movement(Operation::Release),
            ),
        ensures
            attempted(
                old(self)@,
                Operation::Release,
                caller@,
                authorized,
                transfer,
                result,
                final(self)@,
            ),
    {
        self.transition(Operation::Release, caller, authorized, transfer)
    }

    /// The arbiter decides for the buyer: `Funded` becomes `Refunded`, and `transfer` is
    /// asked to move the amount from custody back to the buyer.
    pub fn refund<F: FnOnce(Transfer) -> Result<(), TransferFailed>>(
        &mut self,
        caller: &Identity,
        authorized: bool,
        transfer: F,
    ) -> (result: Result<(), EscrowError>)
        requires
            verdict(old(self)@, Operation::Refund, caller@, authorized) is Ok ==> accepts(
                transfer,
                old(self)@->0.movement(Operation::Refund),
            ),
        ensures
            attempted(
                old(self)@,
                Operation::Refund,
                caller@,
                authorized,
                transfer,
                result,
                final(self)@,
            ),
    {
        self.transition(Operation::Refund, caller, authorized, transfer)
    }

    /// The state of the agreement, or `NotInitialized` before the instance has been set up.
    pub fn get_state(&self) -> (result: Result<EscrowState, EscrowError>)
        ensures
            result == state_of(self@),
    {
        match &self.record {
            None => Err(EscrowError::NotInitialized),
            Some(record) => Ok(record.state()),
        }
    }
}

} // verus!
