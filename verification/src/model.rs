//! The escrow agreement as a mathematical state machine.
//!
//! Everything the executable code promises is stated over the functions of this module: what
//! a record is, who may perform which operation in which state, which movement of value the
//! operation asks for, and what a call leaves behind.

use vstd::prelude::*;
use crate::error::{EscrowError, TransferFailed};
use crate::state::EscrowState;
use crate::transfer::{answers, HolderView, Transfer, TransferView};

verus! {

/// The three operations that move an agreement forward.
#[derive(Clone, Copy, Debug, PartialEq, Eq, Hash, Structural)]
pub enum Operation {
    /// The buyer deposits the amount.
    Fund,
    /// The arbiter hands the deposit to the seller.
    Release,
    /// The arbiter hands the deposit back to the buyer.
    Refund,
}

impl Operation {
    /// The only state in which the operation is possible.
    pub open spec fn source(self) -> EscrowState {
        match self {
            Operation::Fund => EscrowState::Created,
            Operation::Release => EscrowState::Funded,
            Operation::Refund => EscrowState::Funded,
        }
    }

    /// The state that the operation leads to.
    pub open spec fn target(self) -> EscrowState {
        match self {
            Operation::Fund => EscrowState::Funded,
            Operation::Release => EscrowState::Released,
            Operation::Refund => EscrowState::Refunded,
        }
    }

    /// The state the agreement must be in for the operation.
    pub fn from_state(self) -> (state: EscrowState)
        ensures
            state == self.source(),
    {
        match self {
            Operation::Fund => EscrowState::Created,
            Operation::Release => EscrowState::Funded,
            Operation::Refund => EscrowState::Funded,
        }
    }

    /// The state the agreement is in after the operation.
    pub fn to_state(self) -> (state: EscrowState)
        ensures
            state == self.target(),
    {
        match self {
            Operation::Fund => EscrowState::Funded,
            Operation::Release => EscrowState::Released,
            Operation::Refund => EscrowState::Refunded,
        }
    }
}

/// The mathematical value of an escrow record.
pub struct RecordView {
    pub buyer: Seq<char>,
    pub seller: Seq<char>,
    pub arbiter: Seq<char>,
    pub amount: int,
    pub state: EscrowState,
}

impl RecordView {
    /// The record of a fresh agreement.
    pub open spec fn created(
        buyer: Seq<char>,
        seller: Seq<char>,
        arbiter: Seq<char>,
        amount: int,
    ) -> RecordView {
        RecordView { buyer, seller, arbiter, amount, state: EscrowState::Created }
    }

    /// The same agreement in another state.
    pub open spec fn in_state(self, state: EscrowState) -> RecordView {
        RecordView { state, ..self }
    }

    /// The one party that may perform `op`: the buyer funds, the arbiter releases and refunds.
    pub open spec fn actor(self, op: Operation) -> Seq<char> {
        match op {
            Operation::Fund => self.buyer,
            Operation::Release => self.arbiter,
            Operation::Refund => self.arbiter,
        }
    }

    /// The movement of value that belongs to `op`: funding takes the amount from the buyer
    /// into custody, a release hands it from custody to the seller, a refund from custody
    /// back to the buyer.
    pub open spec fn movement(self, op: Operation) -> TransferView {
        match op {
            Operation::Fund => TransferView {
                from: HolderView::Party(self.buyer),
                to: HolderView::Custody,
                amount: self.amount,
            },
            Operation::Release => TransferView {
                from: HolderView::Custody,
                to: HolderView::Party(self.seller),
                amount: self.amount,
            },
            Operation::Refund => TransferView {
                from: HolderView::Custody,
                to: HolderView::Party(self.buyer),
                amount: self.amount,
            },
        }
    }

    /// Whether `caller` may perform `op` now, and if not, why not.
    ///
    /// The checks come in a fixed order: the caller must be authenticated, must be the party
    /// the operation belongs to, and the agreement must be in the operation's source state.
    pub open spec fn verdict(self, op: Operation, caller: Seq<char>, authorized: bool) -> Result<
        TransferView,
        EscrowError,
    > {
        if !authorized {
            Err(EscrowError::Unauthorized)
        } else if caller != self.actor(op) {
            Err(EscrowError::WrongParty)
        } else if self.state != op.source() {
            Err(EscrowError::IllegalTransition)
        } else {
            Ok(self.movement(op))
        }
    }
}

/// The mathematical value of an escrow instance: no record before it is set up, one after.
pub type Escrow = Option<RecordView>;

/// Whether `caller` may perform `op` on the instance now, and which movement of value
/// that asks for.
pub open spec fn verdict(escrow: Escrow, op: Operation, caller: Seq<char>, authorized: bool)
    -> Result<TransferView, EscrowError> {
    match escrow {
        None => Err(EscrowError::NotInitialized),
        Some(record) => record.verdict(op, caller, authorized),
    }
}

/// What an attempt at `op` answers, given whether the value could be moved.
pub open spec fn reply(
    escrow: Escrow,
    op: Operation,
    caller: Seq<char>,
    authorized: bool,
    moved: bool,
) -> Result<(), EscrowError> {
    match verdict(escrow, op, caller, authorized) {
        Err(e) => Err(e),
        Ok(_) => if moved {
            Ok(())
        } else {
            Err(EscrowError::TransferError)
        },
    }
}

/// What an attempt at `op` leaves behind: the agreement in the operation's target state
/// where the attempt was admitted and the value was moved, and the instance as it was
/// in every other case.
pub open spec fn settled(
    escrow: Escrow,
    op: Operation,
    caller: Seq<char>,
    authorized: bool,
    moved: bool,
) -> Escrow {
    if reply(escrow, op, caller, authorized, moved) is Ok {
        Some(escrow->0.in_state(op.target()))
    } else {
        escrow
    }
}

/// What an attempt at `op` must have answered and left behind: the error and the instance
/// unchanged where the attempt is not admitted; otherwise success and the target state if
/// `transfer` moved the value, `TransferError` and the instance unchanged if it could not.
pub open spec fn attempted<F: FnOnce(Transfer) -> Result<(), TransferFailed>>(
    before: Escrow,
    op: Operation,
    caller: Seq<char>,
    authorized: bool,
    transfer: F,
    result: Result<(), EscrowError>,
    after: Escrow,
) -> bool {
    match verdict(before, op, caller, authorized) {
        Err(e) => result == Err::<(), EscrowError>(e) && after == before,
        Ok(movement) => {
            ||| answers(transfer, movement, true) && result == Ok::<(), EscrowError>(()) && after
                == Some(before->0.in_state(op.target()))
            ||| answers(transfer, movement, false) && result == Err::<(), EscrowError>(
                EscrowError::TransferError,
            ) && after == before
        },
    }
}

/// What setting up the agreement answers.
pub open spec fn init_reply(escrow: Escrow) -> Result<(), EscrowError> {
    if escrow is Some {
        Err(EscrowError::AlreadyInitialized)
    } else {
        Ok(())
    }
}

/// What setting up the agreement leaves behind: a fresh record where there was none, and the
/// existing record untouched where there was one.
pub open spec fn initialized(
    escrow: Escrow,
    buyer: Seq<char>,
    seller: Seq<char>,
    arbiter: Seq<char>,
    amount: int,
) -> Escrow {
    if escrow is Some {
        escrow
    } else {
        Some(RecordView::created(buyer, seller, arbiter, amount))
    }
}

/// What a query of the state answers.
pub open spec fn state_of(escrow: Escrow) -> Result<EscrowState, EscrowError> {
    match escrow {
        None => Err(EscrowError::NotInitialized),
        Some(record) => Ok(record.state),
    }
}

} // verus!

verus! {

/// One call on an escrow instance, together with what the outside world answered during it:
/// whether the caller was authenticated, and whether the value could be moved.
pub enum Call {
    /// Setting up the agreement.
    Init { buyer: Seq<char>, seller: Seq<char>, arbiter: Seq<char>, amount: int },
    /// An attempt at `fund`, `release` or `refund`.
    Attempt { op: Operation, caller: Seq<char>, authorized: bool, moved: bool },
    /// A query of the state.
    GetState,
}

/// The instance after one call.
pub open spec fn step(escrow: Escrow, call: Call) -> Escrow {
    match call {
        Call::Init { buyer, seller, arbiter, amount } => initialized(
            escrow,
            buyer,
            seller,
            arbiter,
            amount,
        ),
        Call::Attempt { op, caller, authorized, moved } => settled(
            escrow,
            op,
            caller,
            authorized,
            moved,
        ),
        Call::GetState => escrow,
    }
}

/// The instance after a sequence of calls, made one after the other.
pub open spec fn run(escrow: Escrow, calls: Seq<Call>) -> Escrow
    decreases calls.len(),
{
    if calls.len() == 0 {
        escrow
    } else {
        step(run(escrow, calls.drop_last()), calls.last())
    }
}

/// The call is a `release` or a `refund` that goes through on this instance.
pub open spec fn resolves(escrow: Escrow, call: Call) -> bool {
    call matches Call::Attempt { op, caller, authorized, moved } && op != Operation::Fund && reply(
        escrow,
        op,
        caller,
        authorized,
        moved,
    ) is Ok
}

/// How many of the calls, made one after the other, are a `release` or a `refund` that
/// goes through.
pub open spec fn resolutions(escrow: Escrow, calls: Seq<Call>) -> nat
    decreases calls.len(),
{
    if calls.len() == 0 {
        0
    } else {
        let earlier = resolutions(escrow, calls.drop_last());
        if resolves(run(escrow, calls.drop_last()), calls.last()) {
            earlier + 1
        } else {
            earlier
        }
    }
}

} // verus!
