//! What holds of every escrow instance, whatever calls are made on it.

use vstd::prelude::*;
use crate::error::{EscrowError, TransferFailed};
use crate::model::{
    attempted, initialized, reply, resolutions, resolves, run, settled, state_of, step, verdict, Call,
    Escrow, Operation,
};
use crate::state::EscrowState;
use crate::transfer::Transfer;

verus! {

/// `later` is `earlier` a number of legal steps on: an instance that was set up stays set up,
/// keeps its parties and its amount, and its state has not gone back.
pub open spec fn continues(earlier: Escrow, later: Escrow) -> bool {
    earlier matches Some(old_record) ==> {
        &&& later matches Some(new_record)
        &&& new_record.buyer == old_record.buyer
        &&& new_record.seller == old_record.seller
        &&& new_record.arbiter == old_record.arbiter
        &&& new_record.amount == old_record.amount
        &&& old_record.state.reaches(new_record.state)
    }
}

/// One state reaches another exactly when a chain of legal steps leads from the first to
/// the second; no chain is longer than two steps, and none leads back.
pub proof fn law_reaches_is_a_chain_of_steps(a: EscrowState, b: EscrowState)
    ensures
        a.reaches(b) <==> a == b || a.leads_to(b) || exists|between: EscrowState|
            a.leads_to(between) && between.leads_to(b),
        a.reaches(b) && b.reaches(a) ==> a == b,
        a.leads_to(b) ==> !b.leads_to(a) && a != b,
{
    if a == EscrowState::Created && b.is_terminal() {
        assert(a.leads_to(EscrowState::Funded) && EscrowState::Funded.leads_to(b));
    }
}

/// What `fund`, `release` and `refund` promise is a step of the state machine: whatever the
/// value-transfer capability answered, the instance they leave behind and the result they
/// give are those of an attempt in which the value was moved or one in which it was not.
pub proof fn law_attempt_is_a_step<F: FnOnce(Transfer) -> Result<(), TransferFailed>>(
    before: Escrow,
    op: Operation,
    caller: Seq<char>,
    authorized: bool,
    transfer: F,
    result: Result<(), EscrowError>,
    after: Escrow,
)
    requires
        attempted(before, op, caller, authorized, transfer, result, after),
    ensures
        exists|moved: bool|
            after == #[trigger] step(before, Call::Attempt { op, caller, authorized, moved })
                && result == reply(before, op, caller, authorized, moved),
{
    if verdict(before, op, caller, authorized) is Ok && result is Ok {
        assert(after == step(before, Call::Attempt { op, caller, authorized, moved: true }));
    } else {
        assert(after == step(before, Call::Attempt { op, caller, authorized, moved: false }));
    }
}

/// No call takes the state back: after any one call the instance is where it was or one
/// legal step further, with the same parties and the same amount. A terminal state is
/// never left.
pub proof fn law_step_never_regresses(escrow: Escrow, call: Call)
    ensures
        continues(escrow, step(escrow, call)),
        escrow matches Some(record) ==> {
            let next = step(escrow, call)->0;
            &&& next.state == record.state || record.state.leads_to(next.state)
            &&& record.state.is_terminal() ==> next == record
        },
{
}

/// No sequence of calls takes the state back: the instance after the calls continues the
/// instance before them, and an instance in a terminal state is the same after any calls.
pub proof fn law_run_never_regresses(escrow: Escrow, calls: Seq<Call>)
    ensures
        continues(escrow, run(escrow, calls)),
        escrow matches Some(record) ==> (record.state.is_terminal() ==> run(escrow, calls)
            == escrow),
    decreases calls.len(),
{
    if calls.len() > 0 {
        law_run_never_regresses(escrow, calls.drop_last());
        law_step_never_regresses(run(escrow, calls.drop_last()), calls.last());
    }
}

/// Throughout a history the state only moves forward: of any two moments in a sequence of
/// calls, the instance at the later moment continues the instance at the earlier one.
pub proof fn law_history_never_regresses(escrow: Escrow, calls: Seq<Call>, i: int, j: int)
    requires
        0 <= i <= j <= calls.len(),
    ensures
        continues(run(escrow, calls.take(i)), run(escrow, calls.take(j))),
    decreases j - i,
{
    if i < j {
        law_history_never_regresses(escrow, calls, i, j - 1);
        assert(calls.take(j).drop_last() == calls.take(j - 1));
        assert(calls.take(j).last() == calls[j - 1]);
        law_step_never_regresses(run(escrow, calls.take(j - 1)), calls[j - 1]);
    }
}

/// `fund` changes the instance exactly when the agreement is set up and in state `Created`,
/// the caller is authenticated and is the buyer, and the value was moved. The change is then
/// the step to `Funded` and nothing else; every other call leaves the instance as it was.
pub proof fn law_fund_transitions_exactly_when(
    escrow: Escrow,
    caller: Seq<char>,
    authorized: bool,
    moved: bool,
)
    ensures
        ({
            let after = settled(escrow, Operation::Fund, caller, authorized, moved);
            let admitted = escrow is Some && caller == escrow->0.buyer && escrow->0.state
                == EscrowState::Created;
            &&& after != escrow <==> admitted && authorized && moved
            &&& reply(escrow, Operation::Fund, caller, authorized, moved) is Ok <==> after
                != escrow
            &&& after != escrow ==> after == Some(escrow->0.in_state(EscrowState::Funded))
            &&& authorized && moved && escrow is Some ==> (after != escrow <==> caller
                == escrow->0.buyer && escrow->0.state == EscrowState::Created)
        }),
{
}

/// `release` and `refund` change the instance exactly when the agreement is set up and in
/// state `Funded`, the caller is authenticated and is the arbiter, and the value was moved.
/// The change is then the step to `Released` or to `Refunded`; every other call leaves the
/// instance as it was.
pub proof fn law_resolution_transitions_exactly_when(
    escrow: Escrow,
    op: Operation,
    caller: Seq<char>,
    authorized: bool,
    moved: bool,
)
    requires
        op != Operation::Fund,
    ensures
        ({
            let after = settled(escrow, op, caller, authorized, moved);
            let admitted = escrow is Some && caller == escrow->0.arbiter && escrow->0.state
                == EscrowState::Funded;
            &&& after != escrow <==> admitted && authorized && moved
            &&& reply(escrow, op, caller, authorized, moved) is Ok <==> after != escrow
            &&& after != escrow ==> after == Some(escrow->0.in_state(op.target()))
                && after->0.state.is_terminal()
            &&& authorized && moved && escrow is Some ==> (after != escrow <==> caller
                == escrow->0.arbiter && escrow->0.state == EscrowState::Funded)
        }),
{
}

/// Once a `release` or a `refund` has gone through, neither goes through again: in any
/// sequence of calls on any instance at most one of them succeeds, and none does on an
/// agreement that is already in a terminal state.
pub proof fn law_resolved_at_most_once(escrow: Escrow, calls: Seq<Call>)
    ensures
        resolutions(escrow, calls) <= 1,
        resolutions(escrow, calls) == 1 ==> run(escrow, calls) is Some && run(
            escrow,
            calls,
        )->0.state.is_terminal(),
        escrow is Some && escrow->0.state.is_terminal() ==> resolutions(escrow, calls) == 0,
    decreases calls.len(),
{
    if calls.len() > 0 {
        let earlier = calls.drop_last();
        law_resolved_at_most_once(escrow, earlier);
        law_run_never_regresses(escrow, earlier);
        law_step_never_regresses(run(escrow, earlier), calls.last());
    }
}

/// Before the agreement is set up a query of the state fails with `NotInitialized`; right
/// after it has been set up the query answers `Created`, whoever the parties are and
/// whatever the amount is.
pub proof fn law_state_around_init(
    buyer: Seq<char>,
    seller: Seq<char>,
    arbiter: Seq<char>,
    amount: int,
)
    ensures
        state_of(None) == Err::<EscrowState, EscrowError>(EscrowError::NotInitialized),
        state_of(initialized(None, buyer, seller, arbiter, amount)) == Ok::<
            EscrowState,
            EscrowError,
        >(EscrowState::Created),
{
}

/// An instance is set up once: a second `init` leaves the record of the first untouched.
pub proof fn law_init_is_once(escrow: Escrow, first: Call, second: Call)
    requires
        first is Init,
        second is Init,
    ensures
        step(step(escrow, first), second) == step(escrow, first),
{
}

} // verus!
