//! Sending, verifying and receiving an Accept.
//!
//! Sending: a local actor approves a Follow; the Accept is built, gets an
//! identifier of its own and goes to the follower's inbox.
//!
//! Receiving: an Accept arrives from another server. It is verified first;
//! then its identifier goes on the ledger, the relationship it speaks of is
//! marked as accepted, and the follower's local connection is told. An Accept
//! whose identifier is on the ledger already was processed before and changes
//! nothing.

use crate::actor::{
    opt_actor, resolve_local_spec, resolve_spec, Actor, ActorDirectory, ActorKey, ActorView,
};
use crate::context::{Context, ContextView, Delivery, DeliveryView};
use crate::error::{AcceptError, Invariant};
use crate::flow::{lemma_run_is_receive, requests_left, run_spec, ReceiveStep};
use crate::follows::follow_accepted_spec;
use crate::ident::{activity_id_from_token, activity_id_spec, random_token, ActivityKind};
use crate::iri::Iri;
use crate::keys::{CommunityId, PersonId};
use crate::notify::{notification_spec, subscription_of};
use crate::protocol::{AcceptFollow, AcceptFollowView, Follow, FollowView};
use crate::tables::{languages_spec, local_user_spec};
use vstd::prelude::*;

verus! {

/// The key of the community that a resolved actor is; none where nothing was
/// resolved or the actor is a person.
pub open spec fn community_of(actor: Option<ActorView>) -> Option<CommunityId> {
    match actor {
        Some(actor) => match actor.key {
            ActorKey::Community(community) => Some(community),
            ActorKey::Person(_) => None,
        },
        None => None,
    }
}

/// The key of the person that a resolved actor is; none where nothing was
/// resolved or the actor is a community.
pub open spec fn person_of(actor: Option<ActorView>) -> Option<PersonId> {
    match actor {
        Some(actor) => match actor.key {
            ActorKey::Person(person) => Some(person),
            ActorKey::Community(_) => None,
        },
        None => None,
    }
}

/// The key of the community that a resolved actor is.
pub fn community_key(actor: &Option<Actor>) -> (r: Option<CommunityId>)
    ensures
        r == community_of(opt_actor(*actor)),
{
    match actor {
        Some(actor) => match actor.key {
            ActorKey::Community(community) => Some(community),
            ActorKey::Person(_) => None,
        },
        None => None,
    }
}

/// The key of the person that a resolved actor is.
pub fn person_key(actor: &Option<Actor>) -> (r: Option<PersonId>)
    ensures
        r == person_of(opt_actor(*actor)),
{
    match actor {
        Some(actor) => match actor.key {
            ActorKey::Person(person) => Some(person),
            ActorKey::Community(_) => None,
        },
        None => None,
    }
}

/// Whether a Follow is well-formed, given what its actor and its object
/// resolved to: the actor is a person, the object resolved, and where a
/// recipient is named, it is the object.
pub open spec fn follow_check_spec(
    follow: FollowView,
    actor: Option<ActorView>,
    object: Option<ActorView>,
) -> Result<(), AcceptError> {
    if person_of(actor) is None {
        Err(AcceptError::Dereference)
    } else if object is None {
        Err(AcceptError::Dereference)
    } else if follow.to is Some && follow.to != Some(follow.object) {
        Err(AcceptError::Verification(Invariant::FollowRecipientIsObject))
    } else {
        Ok(())
    }
}

/// Whether a Follow is well-formed, its actor and its object resolved in
/// `actors`.
pub open spec fn follow_verify_spec(follow: FollowView, actors: Map<Seq<char>, ActorView>) -> Result<
    (),
    AcceptError,
> {
    follow_check_spec(
        follow,
        resolve_spec(actors, follow.actor),
        resolve_spec(actors, follow.object),
    )
}

/// The first check on an Accept: its actor is the object of the embedded
/// Follow.
pub open spec fn actor_check_spec(accept: AcceptFollowView) -> Result<(), AcceptError> {
    if accept.actor != accept.object.object {
        Err(AcceptError::Verification(Invariant::ActorIsFollowObject))
    } else {
        Ok(())
    }
}

/// The last check on an Accept: where it names a recipient, that is the actor
/// of the embedded Follow.
pub open spec fn recipient_check_spec(accept: AcceptFollowView) -> Result<(), AcceptError> {
    if accept.to is Some && accept.to != Some(accept.object.actor) {
        Err(AcceptError::Verification(Invariant::RecipientIsFollowActor))
    } else {
        Ok(())
    }
}

/// Whether an Accept may be trusted. The checks run in this order and the
/// first that fails decides: the actor is the object of the embedded Follow;
/// the embedded Follow is well-formed; where a recipient is named, it is the
/// actor of the embedded Follow.
pub open spec fn verify_spec(accept: AcceptFollowView, actors: Map<Seq<char>, ActorView>) -> Result<
    (),
    AcceptError,
> {
    if actor_check_spec(accept) is Err {
        actor_check_spec(accept)
    } else if follow_verify_spec(accept.object, actors) is Err {
        follow_verify_spec(accept.object, actors)
    } else {
        recipient_check_spec(accept)
    }
}

/// The Accept that answers `follow`: from the target, to the follower, with
/// the Follow inside as it came.
pub open spec fn build_spec(
    follow: FollowView,
    target: ActorView,
    follower: ActorView,
    id: Seq<char>,
) -> AcceptFollowView {
    AcceptFollowView { id, actor: target.id, to: Some(follower.id), object: follow }
}

/// The delivery that approves `follow`, with `token` for the identifier of the
/// Accept, once the target and the follower were looked up. The target must
/// have resolved, the follower must have resolved to a person, and the
/// identifier must be a URL; the first of these that fails decides the
/// failure. The delivery goes to the follower's shared inbox or, where it has
/// none, to its own.
pub open spec fn prepare_spec(
    follow: FollowView,
    target: Option<ActorView>,
    follower: Option<ActorView>,
    origin: Seq<char>,
    token: Seq<char>,
) -> Result<DeliveryView, AcceptError> {
    if target is None || person_of(follower) is None {
        Err(AcceptError::Dereference)
    } else {
        match activity_id_spec(ActivityKind::Accept, origin, token) {
            Err(e) => Err(e),
            Ok(id) => Ok(
                DeliveryView {
                    activity: build_spec(follow, target->0, follower->0, id),
                    sender: (target->0).id,
                    inboxes: seq![(follower->0).shared_inbox_or_inbox()],
                },
            ),
        }
    }
}

/// A delivery, or the failure to prepare one, as plain values.
pub open spec fn delivery_outcome(r: Result<Delivery, AcceptError>) -> Result<
    DeliveryView,
    AcceptError,
> {
    match r {
        Ok(delivery) => Ok(delivery@),
        Err(e) => Err(e),
    }
}

/// The instance after a local actor approved `follow`, with `token` for the
/// identifier of the Accept. The target of the Follow is resolved among the
/// local actors, its actor among all. Where the delivery can be prepared it
/// goes to the end of the outbox; otherwise nothing changes.
pub open spec fn send_spec(ctx: ContextView, follow: FollowView, token: Seq<char>) -> (
    ContextView,
    Result<(), AcceptError>,
) {
    match prepare_spec(
        follow,
        resolve_local_spec(ctx.actors, follow.object),
        resolve_spec(ctx.actors, follow.actor),
        ctx.origin,
        token,
    ) {
        Err(e) => (ctx, Err(e)),
        Ok(delivery) => (ContextView { outbox: ctx.outbox.push(delivery), ..ctx }, Ok(())),
    }
}

/// The instance after `accept` was received.
///
/// An identifier that is on the ledger marks a repeated delivery: nothing
/// changes and the call succeeds. Otherwise the identifier goes on the
/// ledger; then the actor must resolve to a community and the actor of the
/// embedded Follow to a person, and a relationship of the two must be on
/// file, else the call fails and only the ledger has changed. The
/// relationship becomes accepted, and where the person has a local account,
/// one notification is pushed with the community as the person now sees it.
pub open spec fn receive_spec(ctx: ContextView, accept: AcceptFollowView) -> (
    ContextView,
    Result<(), AcceptError>,
) {
    if ctx.ledger.contains(accept.id) {
        (ctx, Ok(()))
    } else {
        let recorded = ContextView { ledger: ctx.ledger.insert(accept.id), ..ctx };
        match community_of(resolve_spec(ctx.actors, accept.actor)) {
            None => (recorded, Err(AcceptError::Dereference)),
            Some(community) => match person_of(resolve_spec(ctx.actors, accept.object.actor)) {
                None => (recorded, Err(AcceptError::Dereference)),
                Some(person) => {
                    let (follows, outcome) = follow_accepted_spec(ctx.follows, community, person);
                    if outcome is Err {
                        (recorded, outcome)
                    } else {
                        let accepted = ContextView { follows, ..recorded };
                        match notification_spec(
                            local_user_spec(ctx.local_users, person),
                            subscription_of(follows, community, person),
                            languages_spec(ctx.languages, community),
                        ) {
                            None => (accepted, Ok(())),
                            Some(notification) => (
                                ContextView {
                                    notifications: accepted.notifications.push(notification),
                                    ..accepted
                                },
                                Ok(()),
                            ),
                        }
                    }
                },
            },
        }
    }
}

/// The instance after `accept` arrived: it is verified, and received only if
/// it passes. One that fails changes nothing.
pub open spec fn handle_spec(ctx: ContextView, accept: AcceptFollowView) -> (
    ContextView,
    Result<(), AcceptError>,
) {
    if verify_spec(accept, ctx.actors) is Err {
        (ctx, verify_spec(accept, ctx.actors))
    } else {
        receive_spec(ctx, accept)
    }
}

impl Follow {
    /// Checks that the Follow is well-formed, given what its actor and its
    /// object resolved to.
    pub fn verify_resolved(&self, actor: &Option<Actor>, object: &Option<Actor>) -> (r: Result<
        (),
        AcceptError,
    >)
        ensures
            r == follow_check_spec(self@, opt_actor(*actor), opt_actor(*object)),
    {
        if person_key(actor).is_none() {
            return Err(AcceptError::Dereference);
        }
        if object.is_none() {
            return Err(AcceptError::Dereference);
        }
        if let Some(to) = &self.to {
            if !to.same_as(&self.object) {
                return Err(AcceptError::Verification(Invariant::FollowRecipientIsObject));
            }
        }
        Ok(())
    }

    /// Checks that the Follow is well-formed.
    pub fn verify(&self, actors: &ActorDirectory) -> (r: Result<(), AcceptError>)
        ensures
            r == follow_verify_spec(self@, actors@),
    {
        let actor = actors.resolve(&self.actor);
        let object = actors.resolve(&self.object);
        self.verify_resolved(&actor, &object)
    }
}

impl AcceptFollow {
    /// Builds the Accept that answers `follow`.
    pub fn build(follow: Follow, target: &Actor, follower: &Actor, id: Iri) -> (r: AcceptFollow)
        ensures
            r@ == build_spec(follow@, target@, follower@, id@),
    {
        AcceptFollow { id, actor: target.id(), to: Some(follower.id()), object: follow }
    }

    /// Prepares the delivery that approves `follow`, from the target and the
    /// follower as they were resolved.
    pub fn prepare(
        follow: Follow,
        target: Option<Actor>,
        follower: Option<Actor>,
        origin: &str,
        token: &str,
    ) -> (r: Result<Delivery, AcceptError>)
        ensures
            delivery_outcome(r) == prepare_spec(
                follow@,
                opt_actor(target),
                opt_actor(follower),
                origin@,
                token@,
            ),
    {
        let target = match target {
            Some(target) => target,
            None => {
                return Err(AcceptError::Dereference);
            },
        };
        if person_key(&follower).is_none() {
            return Err(AcceptError::Dereference);
        }
        let follower = match follower {
            Some(follower) => follower,
            None => {
                return Err(AcceptError::Dereference);
            },
        };
        let id = match activity_id_from_token(ActivityKind::Accept, origin, token) {
            Ok(id) => id,
            Err(e) => {
                return Err(e);
            },
        };
        let accept = AcceptFollow::build(follow, &target, &follower, id);
        let mut inboxes: Vec<Iri> = Vec::new();
        inboxes.push(follower.shared_inbox_or_inbox());
        let delivery = Delivery { activity: accept, sender: target.id(), inboxes };
        assert(delivery@.inboxes =~= seq![follower@.shared_inbox_or_inbox()]);
        Ok(delivery)
    }

    /// Approves `follow` on behalf of its target, with `token` for the
    /// identifier of the Accept.
    pub fn send_with_token(follow: Follow, ctx: &mut Context, token: &str) -> (r: Result<
        (),
        AcceptError,
    >)
        ensures
            (final(ctx)@, r) == send_spec(old(ctx)@, follow@, token@),
    {
        let target = ctx.actors.resolve_local(&follow.object);
        let follower = ctx.actors.resolve(&follow.actor);
        match AcceptFollow::prepare(follow, target, follower, ctx.origin.as_str(), token) {
            Ok(delivery) => {
                ctx.deliver(delivery);
                Ok(())
            },
            Err(e) => Err(e),
        }
    }

    /// Approves `follow` on behalf of its target, with a random token for the
    /// identifier of the Accept.
    pub fn send(follow: Follow, ctx: &mut Context) -> (r: Result<(), AcceptError>)
        ensures
            exists|token: Seq<char>| (final(ctx)@, r) == send_spec(old(ctx)@, follow@, token),
    {
        let token = random_token();
        AcceptFollow::send_with_token(follow, ctx, token.as_str())
    }

    /// Checks that the actor is the object of the embedded Follow.
    pub fn verify_actor(&self) -> (r: Result<(), AcceptError>)
        ensures
            r == actor_check_spec(self@),
    {
        if self.actor.same_as(&self.object.object) {
            Ok(())
        } else {
            Err(AcceptError::Verification(Invariant::ActorIsFollowObject))
        }
    }

    /// Checks that the recipient, where one is named, is the actor of the
    /// embedded Follow.
    pub fn verify_recipient(&self) -> (r: Result<(), AcceptError>)
        ensures
            r == recipient_check_spec(self@),
    {
        if let Some(to) = &self.to {
            if !to.same_as(&self.object.actor) {
                return Err(AcceptError::Verification(Invariant::RecipientIsFollowActor));
            }
        }
        Ok(())
    }

    /// Checks that the Accept may be trusted.
    pub fn verify(&self, ctx: &Context) -> (r: Result<(), AcceptError>)
        ensures
            r == verify_spec(self@, ctx@.actors),
    {
        match self.verify_actor() {
            Err(e) => {
                return Err(e);
            },
            Ok(()) => {},
        }
        match self.object.verify(&ctx.actors) {
            Err(e) => {
                return Err(e);
            },
            Ok(()) => {},
        }
        self.verify_recipient()
    }

    /// Applies a verified Accept to the instance: runs the requests of the
    /// receive path, each served from memory, until the run ends.
    pub fn receive(self, ctx: &mut Context) -> (r: Result<(), AcceptError>)
        ensures
            (final(ctx)@, r) == receive_spec(old(ctx)@, self@),
    {
        let ghost goal = receive_spec(ctx@, self@);
        proof {
            lemma_run_is_receive(ctx@, self@);
        }
        let mut step = ReceiveStep::start(&self);
        loop
            invariant
                goal == receive_spec(old(ctx)@, self@),
                run_spec(ctx@, self@, step@) == goal,
            decreases requests_left(step@),
        {
            if let Some(outcome) = step.outcome() {
                return outcome;
            }
            let reply = ctx.serve(&step);
            step = step.step(&self, reply);
        }
    }

    /// Verifies an Accept that arrived and, if it passes, applies it.
    pub fn handle(self, ctx: &mut Context) -> (r: Result<(), AcceptError>)
        ensures
            (final(ctx)@, r) == handle_spec(old(ctx)@, self@),
    {
        match self.verify(ctx) {
            Err(e) => Err(e),
            Ok(()) => self.receive(ctx),
        }
    }
}

} // verus!
