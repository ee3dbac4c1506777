use cargo_trust::{
    EscrowContract, EscrowError, EscrowState, Holder, Identity, Transfer, TransferFailed,
};

fn parties() -> (Identity, Identity, Identity) {
    (Identity::new("B"), Identity::new("S"), Identity::new("Arb"))
}

fn set_up(amount: i128) -> EscrowContract {
    let (buyer, seller, arbiter) = parties();
    let mut escrow = EscrowContract::new();
    assert_eq!(escrow.init(buyer, seller, arbiter, amount), Ok(()));
    escrow
}

fn funded(amount: i128) -> EscrowContract {
    let (buyer, _, _) = parties();
    let mut escrow = set_up(amount);
    assert_eq!(escrow.fund(&buyer, true, |_| Ok(())), Ok(()));
    escrow
}

#[test]
fn state_is_created_after_init() {
    let escrow = set_up(100);
    assert_eq!(escrow.get_state(), Ok(EscrowState::Created));
}

#[test]
fn state_before_init_is_not_initialized() {
    let escrow = EscrowContract::new();
    assert_eq!(escrow.get_state(), Err(EscrowError::NotInitialized));
}

#[test]
fn fund_by_buyer_moves_amount_into_custody() {
    let (buyer, _, _) = parties();
    let mut escrow = set_up(100);
    let mut orders: Vec<Transfer> = Vec::new();
    let result = escrow.fund(&buyer, true, |order| {
        orders.push(order);
        Ok(())
    });
    assert_eq!(result, Ok(()));
    assert_eq!(escrow.get_state(), Ok(EscrowState::Funded));
    assert_eq!(
        orders,
        vec![Transfer { from: Holder::Party(Identity::new("B")), to: Holder::Custody, amount: 100 }]
    );
}

#[test]
fn fund_by_seller_after_funding_changes_nothing() {
    let (_, seller, _) = parties();
    let mut escrow = funded(100);
    let mut calls = 0;
    let result = escrow.fund(&seller, true, |_| {
        calls += 1;
        Ok(())
    });
    assert_eq!(result, Err(EscrowError::WrongParty));
    assert_eq!(calls, 0);
    assert_eq!(escrow.get_state(), Ok(EscrowState::Funded));
}

#[test]
fn release_by_arbiter_pays_seller_and_bars_refund() {
    let (_, _, arbiter) = parties();
    let mut escrow = funded(100);
    let mut orders: Vec<Transfer> = Vec::new();
    let released = escrow.release(&arbiter, true, |order| {
        orders.push(order);
        Ok(())
    });
    assert_eq!(released, Ok(()));
    assert_eq!(escrow.get_state(), Ok(EscrowState::Released));
    assert_eq!(
        orders,
        vec![Transfer { from: Holder::Custody, to: Holder::Party(Identity::new("S")), amount: 100 }]
    );

    let refunded = escrow.refund(&arbiter, true, |order| {
        orders.push(order);
        Ok(())
    });
    assert_eq!(refunded, Err(EscrowError::IllegalTransition));
    assert_eq!(escrow.get_state(), Ok(EscrowState::Released));
    assert_eq!(orders.len(), 1);
}

#[test]
fn refund_by_arbiter_repays_buyer_and_bars_release() {
    let (_, _, arbiter) = parties();
    let mut escrow = funded(100);
    let mut orders: Vec<Transfer> = Vec::new();
    let refunded = escrow.refund(&arbiter, true, |order| {
        orders.push(order);
        Ok(())
    });
    assert_eq!(refunded, Ok(()));
    assert_eq!(escrow.get_state(), Ok(EscrowState::Refunded));
    assert_eq!(
        orders,
        vec![Transfer { from: Holder::Custody, to: Holder::Party(Identity::new("B")), amount: 100 }]
    );

    let released = escrow.release(&arbiter, true, |order| {
        orders.push(order);
        Ok(())
    });
    assert_eq!(released, Err(EscrowError::IllegalTransition));
    assert_eq!(escrow.get_state(), Ok(EscrowState::Refunded));
    assert_eq!(orders.len(), 1);
}

#[test]
fn release_before_funding_does_nothing() {
    let (_, _, arbiter) = parties();
    let mut escrow = set_up(100);
    let mut calls = 0;
    let result = escrow.release(&arbiter, true, |_| {
        calls += 1;
        Ok(())
    });
    assert_eq!(result, Err(EscrowError::IllegalTransition));
    assert_eq!(calls, 0);
    assert_eq!(escrow.get_state(), Ok(EscrowState::Created));
}

#[test]
fn refund_before_funding_does_nothing() {
    let (_, _, arbiter) = parties();
    let mut escrow = set_up(100);
    let result = escrow.refund(&arbiter, true, |_| Ok(()));
    assert_eq!(result, Err(EscrowError::IllegalTransition));
    assert_eq!(escrow.get_state(), Ok(EscrowState::Created));
}

#[test]
fn second_init_is_refused_and_keeps_the_first() {
    let mut escrow = set_up(100);
    let again = escrow.init(Identity::new("X"), Identity::new("Y"), Identity::new("Z"), 7);
    assert_eq!(again, Err(EscrowError::AlreadyInitialized));
    let record = escrow.record().expect("the instance was set up");
    assert_eq!(record.buyer(), &Identity::new("B"));
    assert_eq!(record.seller(), &Identity::new("S"));
    assert_eq!(record.arbiter(), &Identity::new("Arb"));
    assert_eq!(record.amount(), 100);
    assert_eq!(record.state(), EscrowState::Created);
}

#[test]
fn second_init_does_not_reset_a_funded_agreement() {
    let (buyer, seller, arbiter) = parties();
    let mut escrow = funded(100);
    assert_eq!(escrow.init(buyer, seller, arbiter, 100), Err(EscrowError::AlreadyInitialized));
    assert_eq!(escrow.get_state(), Ok(EscrowState::Funded));
}

#[test]
fn operations_before_init_are_not_initialized() {
    let (buyer, _, arbiter) = parties();
    let mut escrow = EscrowContract::new();
    let mut calls = 0;
    assert_eq!(
        escrow.fund(&buyer, true, |_| {
            calls += 1;
            Ok(())
        }),
        Err(EscrowError::NotInitialized)
    );
    assert_eq!(
        escrow.release(&arbiter, true, |_| {
            calls += 1;
            Ok(())
        }),
        Err(EscrowError::NotInitialized)
    );
    assert_eq!(
        escrow.refund(&arbiter, true, |_| {
            calls += 1;
            Ok(())
        }),
        Err(EscrowError::NotInitialized)
    );
    assert_eq!(calls, 0);
    assert!(escrow.record().is_none());
    assert_eq!(escrow.get_state(), Err(EscrowError::NotInitialized));
}

#[test]
fn not_initialized_comes_before_unauthorized() {
    let (buyer, _, _) = parties();
    let mut escrow = EscrowContract::new();
    assert_eq!(escrow.fund(&buyer, false, |_| Ok(())), Err(EscrowError::NotInitialized));
}

#[test]
fn unauthenticated_buyer_cannot_fund() {
    let (buyer, _, _) = parties();
    let mut escrow = set_up(100);
    let mut calls = 0;
    let result = escrow.fund(&buyer, false, |_| {
        calls += 1;
        Ok(())
    });
    assert_eq!(result, Err(EscrowError::Unauthorized));
    assert_eq!(calls, 0);
    assert_eq!(escrow.get_state(), Ok(EscrowState::Created));
}

#[test]
fn unauthenticated_arbiter_cannot_resolve() {
    let (_, _, arbiter) = parties();
    let mut escrow = funded(100);
    assert_eq!(escrow.release(&arbiter, false, |_| Ok(())), Err(EscrowError::Unauthorized));
    assert_eq!(escrow.refund(&arbiter, false, |_| Ok(())), Err(EscrowError::Unauthorized));
    assert_eq!(escrow.get_state(), Ok(EscrowState::Funded));
}

#[test]
fn unauthorized_comes_before_wrong_party() {
    let (_, seller, _) = parties();
    let mut escrow = set_up(100);
    assert_eq!(escrow.fund(&seller, false, |_| Ok(())), Err(EscrowError::Unauthorized));
}

#[test]
fn wrong_party_comes_before_illegal_transition() {
    let (buyer, seller, _) = parties();
    let mut escrow = set_up(100);
    assert_eq!(escrow.release(&buyer, true, |_| Ok(())), Err(EscrowError::WrongParty));
    assert_eq!(escrow.refund(&seller, true, |_| Ok(())), Err(EscrowError::WrongParty));
    assert_eq!(escrow.get_state(), Ok(EscrowState::Created));
}

#[test]
fn buyer_and_seller_cannot_resolve() {
    let (buyer, seller, _) = parties();
    let mut escrow = funded(100);
    assert_eq!(escrow.release(&seller, true, |_| Ok(())), Err(EscrowError::WrongParty));
    assert_eq!(escrow.release(&buyer, true, |_| Ok(())), Err(EscrowError::WrongParty));
    assert_eq!(escrow.refund(&seller, true, |_| Ok(())), Err(EscrowError::WrongParty));
    assert_eq!(escrow.refund(&buyer, true, |_| Ok(())), Err(EscrowError::WrongParty));
    assert_eq!(escrow.get_state(), Ok(EscrowState::Funded));
}

#[test]
fn arbiter_cannot_fund() {
    let (_, _, arbiter) = parties();
    let mut escrow = set_up(100);
    assert_eq!(escrow.fund(&arbiter, true, |_| Ok(())), Err(EscrowError::WrongParty));
    assert_eq!(escrow.get_state(), Ok(EscrowState::Created));
}

#[test]
fn funding_twice_is_an_illegal_transition() {
    let (buyer, _, _) = parties();
    let mut escrow = funded(100);
    let mut calls = 0;
    let result = escrow.fund(&buyer, true, |_| {
        calls += 1;
        Ok(())
    });
    assert_eq!(result, Err(EscrowError::IllegalTransition));
    assert_eq!(calls, 0);
    assert_eq!(escrow.get_state(), Ok(EscrowState::Funded));
}

#[test]
fn failed_deposit_is_rolled_back() {
    let (buyer, _, _) = parties();
    let mut escrow = set_up(100);
    let mut calls = 0;
    let result = escrow.fund(&buyer, true, |_| {
        calls += 1;
        Err(TransferFailed)
    });
    assert_eq!(result, Err(EscrowError::TransferError));
    assert_eq!(calls, 1);
    assert_eq!(escrow.get_state(), Ok(EscrowState::Created));
    assert_eq!(escrow.fund(&buyer, true, |_| Ok(())), Ok(()));
    assert_eq!(escrow.get_state(), Ok(EscrowState::Funded));
}

#[test]
fn failed_release_is_rolled_back() {
    let (_, _, arbiter) = parties();
    let mut escrow = funded(100);
    assert_eq!(
        escrow.release(&arbiter, true, |_| Err(TransferFailed)),
        Err(EscrowError::TransferError)
    );
    assert_eq!(escrow.get_state(), Ok(EscrowState::Funded));
    assert_eq!(escrow.refund(&arbiter, true, |_| Ok(())), Ok(()));
    assert_eq!(escrow.get_state(), Ok(EscrowState::Refunded));
}

#[test]
fn failed_refund_is_rolled_back() {
    let (_, _, arbiter) = parties();
    let mut escrow = funded(100);
    assert_eq!(
        escrow.refund(&arbiter, true, |_| Err(TransferFailed)),
        Err(EscrowError::TransferError)
    );
    assert_eq!(escrow.get_state(), Ok(EscrowState::Funded));
    assert_eq!(escrow.release(&arbiter, true, |_| Ok(())), Ok(()));
    assert_eq!(escrow.get_state(), Ok(EscrowState::Released));
}

#[test]
fn any_amount_is_taken_at_init() {
    for amount in [0, -1, 1, i128::MIN, i128::MAX] {
        let (buyer, _, _) = parties();
        let mut escrow = set_up(amount);
        let mut asked = None;
        assert_eq!(
            escrow.fund(&buyer, true, |order| {
                asked = Some(order.amount);
                Ok(())
            }),
            Ok(())
        );
        assert_eq!(asked, Some(amount));
        assert_eq!(escrow.record().map(|record| record.amount()), Some(amount));
    }
}

#[test]
fn one_party_may_hold_every_role() {
    let solo = Identity::new("solo");
    let mut escrow = EscrowContract::new();
    assert_eq!(escrow.init(solo.clone(), solo.clone(), solo.clone(), 5), Ok(()));
    let mut orders: Vec<Transfer> = Vec::new();
    assert_eq!(
        escrow.fund(&solo, true, |order| {
            orders.push(order);
            Ok(())
        }),
        Ok(())
    );
    assert_eq!(
        escrow.release(&solo, true, |order| {
            orders.push(order);
            Ok(())
        }),
        Ok(())
    );
    assert_eq!(escrow.get_state(), Ok(EscrowState::Released));
    assert_eq!(
        orders,
        vec![
            Transfer { from: Holder::Party(Identity::new("solo")), to: Holder::Custody, amount: 5 },
            Transfer { from: Holder::Custody, to: Holder::Party(Identity::new("solo")), amount: 5 },
        ]
    );
}

#[test]
fn identities_are_compared_exactly() {
    let mut escrow = set_up(100);
    for name in ["b", "B ", " B", "", "BB"] {
        assert_eq!(
            escrow.fund(&Identity::new(name), true, |_| Ok(())),
            Err(EscrowError::WrongParty)
        );
    }
    assert_eq!(escrow.get_state(), Ok(EscrowState::Created));
}
