//! Who a party is.

use vstd::prelude::*;

verus! {

/// The name by which a party to the agreement is known.
///
/// Two identities denote the same party exactly when their names are the same text. Nothing
/// else is asked of a name: it may be empty, and the three parties of one agreement need not
/// differ.
#[derive(Debug, PartialEq, Eq, Hash)]
pub struct Identity {
    name: String,
}

impl View for Identity {
    type V = Seq<char>;

    closed spec fn view(&self) -> Seq<char> {
        self.name@
    }
}

impl Identity {
    /// The identity with the given name.
    pub fn new(name: &str) -> (id: Identity)
        ensures
            id@ == name@,
    {
        Identity { name: name.to_owned() }
    }

    /// The name of this identity.
    pub fn as_str(&self) -> (name: &str)
        ensures
            name@ == self@,
    {
        self.name.as_str()
    }

    /// Whether both identities denote the same party.
    pub fn same_as(&self, other: &Identity) -> (same: bool)
        ensures
            same == (self@ == other@),
    {
        self.name == other.name
    }
}

impl Clone for Identity {
    fn clone(&self) -> (copy: Identity)
        ensures
            copy@ == self@,
    {
        Identity { name: self.name.clone() }
    }
}

} // verus!
