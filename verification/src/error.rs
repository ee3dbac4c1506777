//! Why an operation on an escrow agreement was turned down.

use vstd::prelude::*;

verus! {

/// The ways in which an operation can fail. A failed operation leaves the agreement as it was.
#[derive(Clone, Copy, Debug, PartialEq, Eq, Hash, Structural)]
pub enum EscrowError {
    /// The agreement has not been set up yet.
    NotInitialized,
    /// The agreement has been set up before; it is never set up twice.
    AlreadyInitialized,
    /// The caller could not show that the call comes from them.
    Unauthorized,
    /// The caller is who they claim to be, but this operation is not theirs to perform.
    WrongParty,
    /// The operation is not possible in the state the agreement is in.
    IllegalTransition,
    /// The value could not be moved, so the transition was taken back.
    TransferError,
}

/// What the value-transfer capability answers when it could not move the value.
#[derive(Clone, Copy, Debug, PartialEq, Eq, Hash, Structural)]
pub struct TransferFailed;

} // verus!
