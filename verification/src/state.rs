//! The four stages of an escrow agreement and the order in which they follow each other.

use vstd::prelude::*;

verus! {

/// Where an escrow agreement stands in its life.
///
/// An agreement starts as `Created`, becomes `Funded` once the buyer has deposited, and ends
/// as either `Released` (the seller was paid) or `Refunded` (the buyer got the deposit back).
#[derive(Clone, Copy, Debug, PartialEq, Eq, Hash, Structural)]
pub enum EscrowState {
    Created,
    Funded,
    Released,
    Refunded,
}

impl EscrowState {
    /// A state that nothing leads out of.
    pub open spec fn is_terminal(self) -> bool {
        self == EscrowState::Released || self == EscrowState::Refunded
    }

    /// The single-step successor relation: `Created → Funded → {Released | Refunded}`.
    pub open spec fn leads_to(self, next: EscrowState) -> bool {
        ||| self == EscrowState::Created && next == EscrowState::Funded
        ||| self == EscrowState::Funded && next == EscrowState::Released
        ||| self == EscrowState::Funded && next == EscrowState::Refunded
    }

    /// How many steps lie between `Created` and this state.
    pub open spec fn stage(self) -> nat {
        match self {
            EscrowState::Created => 0,
            EscrowState::Funded => 1,
            EscrowState::Released => 2,
            EscrowState::Refunded => 2,
        }
    }

    /// `later` is this state or comes after it: it is reached by zero or more legal steps.
    pub open spec fn reaches(self, later: EscrowState) -> bool {
        self == later || self.stage() < later.stage()
    }

    /// The name under which the state is published.
    pub open spec fn label(self) -> Seq<char> {
        match self {
            EscrowState::Created => "created"@,
            EscrowState::Funded => "funded"@,
            EscrowState::Released => "released"@,
            EscrowState::Refunded => "refunded"@,
        }
    }

    /// The state that a published name stands for, if it is one of the four.
    pub open spec fn parse(name: Seq<char>) -> Option<EscrowState> {
        if name == "created"@ {
            Some(EscrowState::Created)
        } else if name == "funded"@ {
            Some(EscrowState::Funded)
        } else if name == "released"@ {
            Some(EscrowState::Released)
        } else if name == "refunded"@ {
            Some(EscrowState::Refunded)
        } else {
            None
        }
    }

    /// Whether the agreement is over.
    pub fn terminal(self) -> (over: bool)
        ensures
            over == self.is_terminal(),
    {
        match self {
            EscrowState::Created => false,
            EscrowState::Funded => false,
            EscrowState::Released => true,
            EscrowState::Refunded => true,
        }
    }

    /// Whether `next` may directly follow this state.
    pub fn can_become(self, next: EscrowState) -> (legal: bool)
        ensures
            legal == self.leads_to(next),
    {
        match self {
            EscrowState::Created => next == EscrowState::Funded,
            EscrowState::Funded => next == EscrowState::Released || next == EscrowState::Refunded,
            EscrowState::Released => false,
            EscrowState::Refunded => false,
        }
    }

    /// The lower-case name of the state: `"created"`, `"funded"`, `"released"` or `"refunded"`.
    pub fn name(self) -> (text: &'static str)
        ensures
            text@ == self.label(),
            Self::parse(text@) == Some(self),
    {
        proof {
            lemma_name_round_trip(self);
        }
        match self {
            EscrowState::Created => "created",
            EscrowState::Funded => "funded",
            EscrowState::Released => "released",
            EscrowState::Refunded => "refunded",
        }
    }

    /// Reads a state back from its name. Any other text gives `None`.
    pub fn from_name(text: &str) -> (state: Option<EscrowState>)
        ensures
            state == Self::parse(text@),
            forall|s: EscrowState| state == Some(s) <==> text@ == s.label(),
    {
        proof {
            lemma_name_round_trip(EscrowState::Created);
            lemma_name_round_trip(EscrowState::Funded);
            lemma_name_round_trip(EscrowState::Released);
            lemma_name_round_trip(EscrowState::Refunded);
        }
        let owned = text.to_owned();
        if owned == "created".to_owned() {
            Some(EscrowState::Created)
        } else if owned == "funded".to_owned() {
            Some(EscrowState::Funded)
        } else if owned == "released".to_owned() {
            Some(EscrowState::Released)
        } else if owned == "refunded".to_owned() {
            Some(EscrowState::Refunded)
        } else {
            None
        }
    }
}

/// Every state has a name of its own, and the name reads back as the state.
pub proof fn lemma_name_round_trip(state: EscrowState)
    ensures
        EscrowState::parse(state.label()) == Some(state),
{
    reveal_strlit("created");
    reveal_strlit("funded");
    reveal_strlit("released");
    reveal_strlit("refunded");
    assert("created"@.len() == 7);
    assert("funded"@.len() == 6);
    assert("released"@.len() == 8);
    assert("refunded"@.len() == 8);
    assert("released"@[2] != "refunded"@[2]);
}

} // verus!
