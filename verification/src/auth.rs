//! The authorizations that accompany one call.

use vstd::prelude::*;
use crate::identity::Identity;

verus! {

/// Some entry of `approvers` carries the name `who`.
spec fn names(approvers: Seq<Identity>, who: Seq<char>) -> bool {
    exists|i: int| 0 <= i < approvers.len() && #[trigger] approvers[i]@ == who
}

/// The identities that have proved to the host that they stand behind the
/// call at hand.
///
/// The host checks the proofs; the ledger only asks whether a given
/// identity is among those that passed. Its view is the set of their names.
#[derive(Debug)]
pub struct Authorization {
    approvers: Vec<Identity>,
}

impl View for Authorization {
    type V = Set<Seq<char>>;

    closed spec fn view(&self) -> Set<Seq<char>> {
        Set::new(|who: Seq<char>| names(self.approvers@, who))
    }
}

impl Authorization {
    /// A call that nobody stands behind.
    pub fn none() -> (auth: Authorization)
        ensures
            auth@ == Set::<Seq<char>>::empty(),
    {
        let auth = Authorization { approvers: Vec::new() };
        assert(auth@ =~= Set::<Seq<char>>::empty());
        auth
    }

    /// A call that `who`, and nobody else, stands behind.
    pub fn of(who: &Identity) -> (auth: Authorization)
        ensures
            auth@ == Set::<Seq<char>>::empty().insert(who@),
    {
        let mut auth = Authorization::none();
        auth.add(who);
        auth
    }

    /// Adds `who` to those who stand behind the call.
    pub fn add(&mut self, who: &Identity)
        ensures
            final(self)@ == old(self)@.insert(who@),
    {
        let ghost before = self.approvers@;
        self.approvers.push(who.clone());
        proof {
            let after = self.approvers@;
            assert forall|name: Seq<char>| names(after, name) <==> (name == who@ || names(
                before,
                name,
            )) by {
                if names(before, name) {
                    let i = choose|i: int| 0 <= i < before.len() && #[trigger] before[i]@ == name;
                    assert(after[i]@ == name);
                }
                if name == who@ {
                    assert(after[after.len() - 1]@ == name);
                }
                if names(after, name) {
                    let i = choose|i: int| 0 <= i < after.len() && #[trigger] after[i]@ == name;
                    if i < before.len() {
                        assert(before[i]@ == name);
                    }
                }
            }
            assert(self@ =~= old(self)@.insert(who@));
        }
    }

    /// Whether `who` stands behind the call.
    pub fn includes(&self, who: &Identity) -> (included: bool)
        ensures
            included == self@.contains(who@),
    {
        let mut i: usize = 0;
        while i < self.approvers.len()
            invariant
                i <= self.approvers@.len(),
                forall|k: int| 0 <= k < i ==> #[trigger] self.approvers@[k]@ != who@,
            decreases self.approvers@.len() - i,
        {
            if self.approvers[i].same_as(who) {
                return true;
            }
            i = i + 1;
        }
        false
    }
}

} // verus!
