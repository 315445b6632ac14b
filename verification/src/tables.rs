//! What the instance keeps about local accounts and communities.

use crate::keys::{CommunityId, LanguageId, LocalUserId, PersonId};
use std::collections::HashMap;
use vstd::prelude::*;

verus! {

/// Copies a list of languages.
pub fn copy_languages(languages: &Vec<LanguageId>) -> (r: Vec<LanguageId>)
    ensures
        r@ == languages@,
{
    let mut r: Vec<LanguageId> = Vec::new();
    let mut i: usize = 0;
    while i < languages.len()
        invariant
            i <= languages@.len(),
            r@ == languages@.take(i as int),
        decreases languages@.len() - i,
    {
        r.push(languages[i]);
        assert(r@ =~= languages@.take(i + 1));
        i += 1;
    }
    assert(languages@.take(i as int) =~= languages@);
    r
}

/// The local accounts, by the person who holds each.
#[derive(Debug)]
pub struct LocalUsers {
    accounts: HashMap<i32, LocalUserId>,
}

impl View for LocalUsers {
    type V = Map<PersonId, LocalUserId>;

    closed spec fn view(&self) -> Map<PersonId, LocalUserId> {
        Map::new(
            |person: PersonId| self.accounts@.contains_key(person.0),
            |person: PersonId| self.accounts@[person.0],
        )
    }
}

/// The local account of `person`, if there is one.
pub open spec fn local_user_spec(accounts: Map<PersonId, LocalUserId>, person: PersonId) -> Option<
    LocalUserId,
> {
    if accounts.contains_key(person) {
        Some(accounts[person])
    } else {
        None
    }
}

impl LocalUsers {
    /// No accounts.
    pub fn new() -> (r: Self)
        ensures
            r@ == Map::<PersonId, LocalUserId>::empty(),
    {
        let r = LocalUsers { accounts: HashMap::new() };
        assert(r@ =~= Map::<PersonId, LocalUserId>::empty());
        r
    }

    /// Gives `person` the local account `user`.
    pub fn insert(&mut self, person: PersonId, user: LocalUserId)
        ensures
            final(self)@ == old(self)@.insert(person, user),
    {
        self.accounts.insert(person.0, user);
        assert(self@ =~= old(self)@.insert(person, user));
    }

    /// The local account of `person`, if there is one.
    pub fn local_user_by_person(&self, person: PersonId) -> (r: Option<LocalUserId>)
        ensures
            r == local_user_spec(self@, person),
    {
        match self.accounts.get(&person.0) {
            Some(user) => Some(*user),
            None => None,
        }
    }
}

/// The languages in which each community holds its discussions.
#[derive(Debug)]
pub struct CommunityLanguages {
    languages: HashMap<i32, Vec<LanguageId>>,
}

impl View for CommunityLanguages {
    type V = Map<CommunityId, Seq<LanguageId>>;

    closed spec fn view(&self) -> Map<CommunityId, Seq<LanguageId>> {
        Map::new(
            |community: CommunityId| self.languages@.contains_key(community.0),
            |community: CommunityId| self.languages@[community.0]@,
        )
    }
}

/// The languages of `community`: those on file, or none.
pub open spec fn languages_spec(
    languages: Map<CommunityId, Seq<LanguageId>>,
    community: CommunityId,
) -> Seq<LanguageId> {
    if languages.contains_key(community) {
        languages[community]
    } else {
        Seq::empty()
    }
}

impl CommunityLanguages {
    /// No community has languages on file.
    pub fn new() -> (r: Self)
        ensures
            r@ == Map::<CommunityId, Seq<LanguageId>>::empty(),
    {
        let r = CommunityLanguages { languages: HashMap::new() };
        assert(r@ =~= Map::<CommunityId, Seq<LanguageId>>::empty());
        r
    }

    /// Sets the languages of `community`.
    pub fn set(&mut self, community: CommunityId, languages: Vec<LanguageId>)
        ensures
            final(self)@ == old(self)@.insert(community, languages@),
    {
        self.languages.insert(community.0, languages);
        assert(self@ =~= old(self)@.insert(community, languages@));
    }

    /// The languages of `community` as they are on file now.
    pub fn read(&self, community: CommunityId) -> (r: Vec<LanguageId>)
        ensures
            r@ == languages_spec(self@, community),
    {
        match self.languages.get(&community.0) {
            Some(languages) => copy_languages(languages),
            None => Vec::new(),
        }
    }
}

} // verus!
