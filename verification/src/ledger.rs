//! The ledger of activities already processed.
//!
//! Activities are delivered at least once, so the same Accept may arrive
//! again. The ledger keeps the identifier of every activity that was let in;
//! an identifier that is on it is not let in a second time.

use crate::iri::Iri;
use vstd::prelude::*;

verus! {

/// What the ledger answers when an activity asks to be let in.
#[derive(Clone, Copy, Debug, PartialEq, Eq, Structural)]
pub enum Admission {
    /// The identifier was not on the ledger and is now.
    Fresh,
    /// The identifier was on the ledger already.
    Duplicate,
}

/// An append-only set of activity identifiers.
#[derive(Debug)]
pub struct ActivityLedger {
    ids: Vec<Iri>,
}

impl View for ActivityLedger {
    type V = Set<Seq<char>>;

    closed spec fn view(&self) -> Set<Seq<char>> {
        Set::new(|id: Seq<char>| exists|i: int| 0 <= i < self.ids@.len() && self.ids@[i]@ == id)
    }
}

/// The ledger after `id` asked to be let in.
pub open spec fn record_spec(ledger: Set<Seq<char>>, id: Seq<char>) -> (Set<Seq<char>>, Admission) {
    if ledger.contains(id) {
        (ledger, Admission::Duplicate)
    } else {
        (ledger.insert(id), Admission::Fresh)
    }
}

impl ActivityLedger {
    /// A ledger with nothing on it.
    pub fn new() -> (r: Self)
        ensures
            r@ == Set::<Seq<char>>::empty(),
    {
        let r = ActivityLedger { ids: Vec::new() };
        assert(r@ =~= Set::<Seq<char>>::empty());
        r
    }

    /// Whether `id` is on the ledger.
    pub fn contains(&self, id: &Iri) -> (r: bool)
        ensures
            r == self@.contains(id@),
    {
        let mut i: usize = 0;
        while i < self.ids.len()
            invariant
                i <= self.ids@.len(),
                forall|j: int| 0 <= j < i ==> self.ids@[j]@ != id@,
            decreases self.ids@.len() - i,
        {
            if self.ids[i].same_as(id) {
                return true;
            }
            i += 1;
        }
        false
    }

    /// Lets the activity named `id` in unless it was let in before.
    pub fn record(&mut self, id: &Iri) -> (r: Admission)
        ensures
            (final(self)@, r) == record_spec(old(self)@, id@),
    {
        if self.contains(id) {
            Admission::Duplicate
        } else {
            self.ids.push(id.clone());
            proof {
                let before = old(self).ids@;
                let after = self.ids@;
                assert forall|x: Seq<char>| self@.contains(x) == old(self)@.insert(id@).contains(
                    x,
                ) by {
                    if old(self)@.contains(x) {
                        let i = choose|i: int| 0 <= i < before.len() && before[i]@ == x;
                        assert(after[i]@ == x);
                    }
                    if x == id@ {
                        assert(after[before.len() as int]@ == x);
                    }
                }
                assert(self@ =~= old(self)@.insert(id@));
            }
            Admission::Fresh
        }
    }
}

} // verus!
