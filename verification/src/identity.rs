//! Identities that can authorize a call.

use vstd::prelude::*;
use vstd::string::StringExecFns;

verus! {

/// An account that can prove, to the host, that it stands behind a call.
///
/// The ledger treats an identity as an opaque name: it stores it, hands it
/// back and compares it, and never looks inside. Its view is the name's text.
#[derive(Debug, PartialEq, Eq)]
pub struct Identity {
    name: String,
}

impl View for Identity {
    type V = Seq<char>;

    closed spec fn view(&self) -> Seq<char> {
        self.name@
    }
}

impl Identity {
    /// The identity with the given name.
    pub fn new(name: String) -> (id: Identity)
        ensures
            id@ == name@,
    {
        Identity { name }
    }

    /// The identity with the given name, copied from a string slice.
    pub fn from_str(name: &str) -> (id: Identity)
        ensures
            id@ == name@,
    {
        Identity { name: String::from_str(name) }
    }

    /// The identity's name.
    pub fn as_str(&self) -> (name: &str)
        ensures
            name@ == self@,
    {
        self.name.as_str()
    }

    /// Whether two identities carry the same name.
    pub fn same_as(&self, other: &Identity) -> (same: bool)
        ensures
            same == (self@ == other@),
    {
        self.name == other.name
    }
}

impl Clone for Identity {
    fn clone(&self) -> (copy: Identity)
        ensures
            copy == *self,
            copy@ == self@,
    {
        Identity { name: self.name.clone() }
    }
}

} // verus!
