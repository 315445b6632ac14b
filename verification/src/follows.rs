//! The follow relationships on file.
//!
//! A relationship is keyed by the community that is followed and the person
//! who follows. It is pending from the moment the person asks until the
//! community's Accept arrives, and accepted from then on.

use crate::error::AcceptError;
use crate::keys::{CommunityId, PersonId};
use vstd::prelude::*;

verus! {

/// How far a follow relationship has come.
#[derive(Clone, Copy, Debug, PartialEq, Eq, Structural)]
pub enum FollowState {
    /// Asked for, not yet approved.
    Pending,
    /// Approved by the community.
    Accepted,
}

/// One relationship as it is stored.
#[derive(Clone, Copy, Debug)]
pub struct FollowRecord {
    pub community: CommunityId,
    pub person: PersonId,
    pub state: FollowState,
}

/// The relationships on file; where two records have one key the later counts.
#[derive(Debug)]
pub struct FollowStore {
    records: Vec<FollowRecord>,
}

/// The table that a run of records stands for.
pub closed spec fn table_of(records: Seq<FollowRecord>) -> Map<(CommunityId, PersonId), FollowState>
    decreases records.len(),
{
    if records.len() == 0 {
        Map::empty()
    } else {
        let last = records.last();
        table_of(records.drop_last()).insert((last.community, last.person), last.state)
    }
}

impl View for FollowStore {
    type V = Map<(CommunityId, PersonId), FollowState>;

    closed spec fn view(&self) -> Map<(CommunityId, PersonId), FollowState> {
        table_of(self.records@)
    }
}

/// The table after the community approved the person's request: a relationship
/// on file, pending or accepted, is accepted; without one nothing changes and
/// the approval fails.
pub open spec fn follow_accepted_spec(
    table: Map<(CommunityId, PersonId), FollowState>,
    community: CommunityId,
    person: PersonId,
) -> (Map<(CommunityId, PersonId), FollowState>, Result<(), AcceptError>) {
    if table.contains_key((community, person)) {
        (table.insert((community, person), FollowState::Accepted), Ok(()))
    } else {
        (table, Err(AcceptError::NoPendingFollow))
    }
}

/// Replacing the last record of a key changes the table at that key only.
proof fn lemma_update_last_match(records: Seq<FollowRecord>, i: int, fresh: FollowRecord)
    requires
        0 <= i < records.len(),
        fresh.community == records[i].community,
        fresh.person == records[i].person,
        forall|j: int|
            i < j < records.len() ==> (records[j].community, records[j].person) != (
                fresh.community,
                fresh.person,
            ),
    ensures
        table_of(records.update(i, fresh)) == table_of(records).insert(
            (fresh.community, fresh.person),
            fresh.state,
        ),
    decreases records.len(),
{
    let key = (fresh.community, fresh.person);
    let updated = records.update(i, fresh);
    if i == records.len() - 1 {
        assert(updated.drop_last() =~= records.drop_last());
        assert(table_of(updated) =~= table_of(records).insert(key, fresh.state));
    } else {
        let last = records.last();
        assert(updated.drop_last() =~= records.drop_last().update(i, fresh));
        lemma_update_last_match(records.drop_last(), i, fresh);
        assert((last.community, last.person) != key);
        assert(table_of(updated) =~= table_of(records).insert(key, fresh.state));
    }
}

impl FollowStore {
    /// A store with no relationship on file.
    pub fn new() -> (r: Self)
        ensures
            r@ == Map::<(CommunityId, PersonId), FollowState>::empty(),
    {
        FollowStore { records: Vec::new() }
    }

    /// Puts the relationship of `person` to `community` on file in `state`.
    pub fn follow(&mut self, community: CommunityId, person: PersonId, state: FollowState)
        ensures
            final(self)@ == old(self)@.insert((community, person), state),
    {
        self.records.push(FollowRecord { community, person, state });
        assert(self.records@.drop_last() =~= old(self).records@);
    }

    /// Index of the last record of the key, if there is one.
    fn last_match(&self, community: CommunityId, person: PersonId) -> (r: Option<usize>)
        ensures
            r is None ==> !self@.contains_key((community, person)),
            r matches Some(i) ==> {
                &&& i < self.records@.len()
                &&& self.records@[i as int].community == community
                &&& self.records@[i as int].person == person
                &&& self@.contains_key((community, person))
                &&& self@[(community, person)] == self.records@[i as int].state
                &&& forall|j: int|
                    i < j < self.records@.len() ==> (
                        self.records@[j].community,
                        self.records@[j].person,
                    ) != (community, person)
            },
    {
        let ghost key = (community, person);
        let ghost all = self.records@;
        let mut i: usize = self.records.len();
        assert(all.take(i as int) =~= all);
        while i > 0
            invariant
                i <= self.records@.len(),
                all == self.records@,
                key == (community, person),
                forall|j: int| i <= j < all.len() ==> (all[j].community, all[j].person) != key,
                table_of(all).contains_key(key) == table_of(all.take(i as int)).contains_key(key),
                table_of(all).contains_key(key) ==> table_of(all)[key] == table_of(
                    all.take(i as int),
                )[key],
            decreases i,
        {
            let record = self.records[i - 1];
            assert(all.take(i as int).drop_last() =~= all.take(i - 1));
            assert(all.take(i as int).last() == all[i - 1]);
            if record.community.0 == community.0 && record.person.0 == person.0 {
                return Some(i - 1);
            }
            i -= 1;
        }
        None
    }

    /// The state of the relationship of `person` to `community`.
    pub fn state_of(&self, community: CommunityId, person: PersonId) -> (r: Option<FollowState>)
        ensures
            r == (if self@.contains_key((community, person)) {
                Some(self@[(community, person)])
            } else {
                None
            }),
    {
        match self.last_match(community, person) {
            Some(i) => Some(self.records[i].state),
            None => None,
        }
    }

    /// Marks the relationship of `person` to `community` as accepted.
    pub fn follow_accepted(&mut self, community: CommunityId, person: PersonId) -> (r: Result<
        (),
        AcceptError,
    >)
        ensures
            (final(self)@, r) == follow_accepted_spec(old(self)@, community, person),
    {
        match self.last_match(community, person) {
            Some(i) => {
                let fresh = FollowRecord { community, person, state: FollowState::Accepted };
                proof {
                    lemma_update_last_match(self.records@, i as int, fresh);
                }
                self.records.set(i, fresh);
                Ok(())
            },
            None => Err(AcceptError::NoPendingFollow),
        }
    }
}

} // verus!
