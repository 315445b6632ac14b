//! Actors and the directory that resolves them.
//!
//! An actor is a person or a community. It is named by a URL, takes
//! deliveries at an inbox, and may share an inbox with the other actors of its
//! server.

use crate::iri::Iri;
use crate::keys::{CommunityId, PersonId};
use crate::protocol::{clone_opt, opt_text};
use vstd::prelude::*;

verus! {

/// Which of the two variants an actor is, with its row key.
#[derive(Clone, Copy, Debug, PartialEq, Eq, Structural)]
pub enum ActorKey {
    Person(PersonId),
    Community(CommunityId),
}

/// A snapshot of an actor, read-only for the length of one operation.
#[derive(Debug)]
pub struct Actor {
    pub key: ActorKey,
    pub id: Iri,
    pub inbox: Iri,
    pub shared_inbox: Option<Iri>,
    /// Whether the actor is on file locally, so that no fetch is needed.
    pub local: bool,
}

/// An [`Actor`] as plain values.
pub ghost struct ActorView {
    pub key: ActorKey,
    pub id: Seq<char>,
    pub inbox: Seq<char>,
    pub shared_inbox: Option<Seq<char>>,
    pub local: bool,
}

impl ActorView {
    /// The shared inbox where there is one, else the actor's own.
    pub open spec fn shared_inbox_or_inbox(self) -> Seq<char> {
        match self.shared_inbox {
            Some(shared) => shared,
            None => self.inbox,
        }
    }
}

impl View for Actor {
    type V = ActorView;

    open spec fn view(&self) -> ActorView {
        ActorView {
            key: self.key,
            id: self.id@,
            inbox: self.inbox@,
            shared_inbox: opt_text(self.shared_inbox),
            local: self.local,
        }
    }
}

impl Clone for Actor {
    fn clone(&self) -> (r: Self)
        ensures
            r@ == self@,
    {
        Actor {
            key: self.key,
            id: self.id.clone(),
            inbox: self.inbox.clone(),
            shared_inbox: clone_opt(&self.shared_inbox),
            local: self.local,
        }
    }
}

impl Actor {
    /// The URL that names the actor.
    pub fn id(&self) -> (r: Iri)
        ensures
            r@ == self@.id,
    {
        self.id.clone()
    }

    /// The actor's own inbox.
    pub fn inbox(&self) -> (r: Iri)
        ensures
            r@ == self@.inbox,
    {
        self.inbox.clone()
    }

    /// The inbox that the actor shares with its server, if any.
    pub fn shared_inbox(&self) -> (r: Option<Iri>)
        ensures
            opt_text(r) == self@.shared_inbox,
    {
        clone_opt(&self.shared_inbox)
    }

    /// Where to deliver: the shared inbox where there is one, else the
    /// actor's own.
    pub fn shared_inbox_or_inbox(&self) -> (r: Iri)
        ensures
            r@ == self@.shared_inbox_or_inbox(),
    {
        match &self.shared_inbox {
            Some(shared) => shared.clone(),
            None => self.inbox.clone(),
        }
    }
}

/// The actors that can be resolved; where two entries have one URL the later
/// counts.
#[derive(Debug)]
pub struct ActorDirectory {
    actors: Vec<Actor>,
}

/// The directory that a run of entries stands for.
pub closed spec fn directory_of(actors: Seq<Actor>) -> Map<Seq<char>, ActorView>
    decreases actors.len(),
{
    if actors.len() == 0 {
        Map::empty()
    } else {
        directory_of(actors.drop_last()).insert(actors.last().id@, actors.last()@)
    }
}

/// What resolving `url` gives: the actor on file under it.
pub open spec fn resolve_spec(directory: Map<Seq<char>, ActorView>, url: Seq<char>) -> Option<
    ActorView,
> {
    if directory.contains_key(url) {
        Some(directory[url])
    } else {
        None
    }
}

/// What resolving `url` without a fetch gives: the actor on file under it, if
/// it is a local one.
pub open spec fn resolve_local_spec(directory: Map<Seq<char>, ActorView>, url: Seq<char>) -> Option<
    ActorView,
> {
    if directory.contains_key(url) && directory[url].local {
        Some(directory[url])
    } else {
        None
    }
}

/// The view of an optional actor.
pub open spec fn opt_actor(actor: Option<Actor>) -> Option<ActorView> {
    match actor {
        Some(actor) => Some(actor@),
        None => None,
    }
}

impl View for ActorDirectory {
    type V = Map<Seq<char>, ActorView>;

    closed spec fn view(&self) -> Map<Seq<char>, ActorView> {
        directory_of(self.actors@)
    }
}

impl ActorDirectory {
    /// A directory that resolves nothing.
    pub fn new() -> (r: Self)
        ensures
            r@ == Map::<Seq<char>, ActorView>::empty(),
    {
        ActorDirectory { actors: Vec::new() }
    }

    /// Files `actor` under its URL.
    pub fn register(&mut self, actor: Actor)
        ensures
            final(self)@ == old(self)@.insert(actor@.id, actor@),
    {
        self.actors.push(actor);
        assert(self.actors@.drop_last() =~= old(self).actors@);
    }

    /// Every entry under its own URL: a resolved actor is named by the URL
    /// that was asked for.
    pub proof fn lemma_named_by_url(&self, url: Seq<char>)
        requires
            self@.contains_key(url),
        ensures
            self@[url].id == url,
    {
        Self::lemma_entries_named(self.actors@, url);
    }

    proof fn lemma_entries_named(actors: Seq<Actor>, url: Seq<char>)
        requires
            directory_of(actors).contains_key(url),
        ensures
            directory_of(actors)[url].id == url,
        decreases actors.len(),
    {
        if actors.len() > 0 && actors.last().id@ != url {
            Self::lemma_entries_named(actors.drop_last(), url);
        }
    }

    /// Resolves `url` to the actor on file under it.
    pub fn resolve(&self, url: &Iri) -> (r: Option<Actor>)
        ensures
            opt_actor(r) == resolve_spec(self@, url@),
    {
        let ghost all = self.actors@;
        let mut i: usize = self.actors.len();
        assert(all.take(i as int) =~= all);
        while i > 0
            invariant
                i <= self.actors@.len(),
                all == self.actors@,
                directory_of(all).contains_key(url@) == directory_of(
                    all.take(i as int),
                ).contains_key(url@),
                directory_of(all).contains_key(url@) ==> directory_of(all)[url@] == directory_of(
                    all.take(i as int),
                )[url@],
            decreases i,
        {
            assert(all.take(i as int).drop_last() =~= all.take(i - 1));
            assert(all.take(i as int).last() == all[i - 1]);
            if self.actors[i - 1].id.same_as(url) {
                return Some(self.actors[i - 1].clone());
            }
            i -= 1;
        }
        None
    }

    /// Resolves `url` to a local actor, without a fetch.
    pub fn resolve_local(&self, url: &Iri) -> (r: Option<Actor>)
        ensures
            opt_actor(r) == resolve_local_spec(self@, url@),
    {
        match self.resolve(url) {
            Some(actor) => if actor.local {
                Some(actor)
            } else {
                None
            },
            None => None,
        }
    }
}

} // verus!
