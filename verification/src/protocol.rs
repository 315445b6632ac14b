//! The two activities of the handshake.

use crate::iri::Iri;
use vstd::prelude::*;

verus! {

/// A request to follow: `actor` asks to follow `object`.
#[derive(Debug)]
pub struct Follow {
    pub id: Iri,
    pub actor: Iri,
    pub to: Option<Iri>,
    pub object: Iri,
}

/// The approval of a [`Follow`]: `actor` accepts the request in `object`
/// and tells `to`.
#[derive(Debug)]
pub struct AcceptFollow {
    pub id: Iri,
    pub actor: Iri,
    pub to: Option<Iri>,
    pub object: Follow,
}

/// A [`Follow`] as plain text.
pub ghost struct FollowView {
    pub id: Seq<char>,
    pub actor: Seq<char>,
    pub to: Option<Seq<char>>,
    pub object: Seq<char>,
}

/// An [`AcceptFollow`] as plain text.
pub ghost struct AcceptFollowView {
    pub id: Seq<char>,
    pub actor: Seq<char>,
    pub to: Option<Seq<char>>,
    pub object: FollowView,
}

/// The text of an optional URL.
pub open spec fn opt_text(iri: Option<Iri>) -> Option<Seq<char>> {
    match iri {
        Some(iri) => Some(iri@),
        None => None,
    }
}

/// Copies an optional URL.
pub fn clone_opt(iri: &Option<Iri>) -> (r: Option<Iri>)
    ensures
        opt_text(r) == opt_text(*iri),
{
    match iri {
        Some(iri) => Some(iri.clone()),
        None => None,
    }
}

impl View for Follow {
    type V = FollowView;

    open spec fn view(&self) -> FollowView {
        FollowView {
            id: self.id@,
            actor: self.actor@,
            to: opt_text(self.to),
            object: self.object@,
        }
    }
}

impl Clone for Follow {
    fn clone(&self) -> (r: Self)
        ensures
            r@ == self@,
    {
        Follow {
            id: self.id.clone(),
            actor: self.actor.clone(),
            to: clone_opt(&self.to),
            object: self.object.clone(),
        }
    }
}

impl View for AcceptFollow {
    type V = AcceptFollowView;

    open spec fn view(&self) -> AcceptFollowView {
        AcceptFollowView {
            id: self.id@,
            actor: self.actor@,
            to: opt_text(self.to),
            object: self.object@,
        }
    }
}

impl Clone for AcceptFollow {
    fn clone(&self) -> (r: Self)
        ensures
            r@ == self@,
    {
        AcceptFollow {
            id: self.id.clone(),
            actor: self.actor.clone(),
            to: clone_opt(&self.to),
            object: self.object.clone(),
        }
    }
}

impl AcceptFollow {
    /// The identifier of this activity.
    pub fn id(&self) -> (r: &Iri)
        ensures
            r@ == self@.id,
    {
        &self.id
    }

    /// The actor that accepts.
    pub fn actor(&self) -> (r: &Iri)
        ensures
            r@ == self@.actor,
    {
        &self.actor
    }
}

} // verus!
