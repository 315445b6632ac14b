//! What holds of the handshake as a whole.
//!
//! Each statement here is proved from the definitions in [`crate::accept`];
//! the functions that run are proved to compute exactly those definitions.

use crate::accept::{
    community_of, handle_spec, person_of, receive_spec, send_spec, verify_spec,
};
use crate::actor::{resolve_spec, ActorView};
use crate::context::{Context, ContextView};
use crate::error::{AcceptError, Invariant};
use crate::follows::FollowState;
use crate::keys::{CommunityId, PersonId};
use crate::protocol::{AcceptFollowView, FollowView};
use vstd::prelude::*;

verus! {

/// Every actor of the directory is on file under its own URL.
pub open spec fn named_by_url(actors: Map<Seq<char>, ActorView>) -> bool {
    forall|url: Seq<char>| actors.contains_key(url) ==> (#[trigger] actors[url]).id == url
}

/// The directory of a running instance files every actor under its own URL.
pub proof fn lemma_context_named_by_url(ctx: &Context)
    ensures
        named_by_url(ctx@.actors),
{
    assert forall|url: Seq<char>| ctx@.actors.contains_key(url) implies (
    #[trigger] ctx@.actors[url]).id == url by {
        ctx.actors.lemma_named_by_url(url);
    }
}

/// A pending follow is completed by its Accept: where the relationship of a
/// person to a community is pending, an Accept that passes verification, comes
/// from that community, answers a Follow of that person and was not processed
/// before is handled with success, and the relationship is accepted
/// afterwards. Nothing else in the table of relationships changes.
pub proof fn lemma_accept_completes_pending_follow(
    ctx: ContextView,
    accept: AcceptFollowView,
    community: CommunityId,
    person: PersonId,
)
    requires
        verify_spec(accept, ctx.actors) is Ok,
        community_of(resolve_spec(ctx.actors, accept.actor)) == Some(community),
        person_of(resolve_spec(ctx.actors, accept.object.actor)) == Some(person),
        ctx.follows.contains_key((community, person)),
        ctx.follows[(community, person)] == FollowState::Pending,
        !ctx.ledger.contains(accept.id),
    ensures
        handle_spec(ctx, accept).1 == Ok::<(), AcceptError>(()),
        handle_spec(ctx, accept).0.follows == ctx.follows.insert(
            (community, person),
            FollowState::Accepted,
        ),
        handle_spec(ctx, accept).0.follows[(community, person)] == FollowState::Accepted,
{
}

/// A second delivery changes nothing: once an Accept was received, with
/// whatever outcome, receiving it again succeeds and leaves the instance as
/// it is. No relationship changes and no notification is pushed.
pub proof fn lemma_second_receive_is_noop(ctx: ContextView, accept: AcceptFollowView)
    ensures
        receive_spec(receive_spec(ctx, accept).0, accept) == (
            receive_spec(ctx, accept).0,
            Ok::<(), AcceptError>(()),
        ),
{
}

/// A second delivery of an Accept that passes verification changes nothing
/// and raises no error, also when it is verified again.
pub proof fn lemma_second_handle_is_noop(ctx: ContextView, accept: AcceptFollowView)
    requires
        verify_spec(accept, ctx.actors) is Ok,
    ensures
        handle_spec(handle_spec(ctx, accept).0, accept) == (
            handle_spec(ctx, accept).0,
            Ok::<(), AcceptError>(()),
        ),
{
}

/// An Accept whose actor is not the object of the embedded Follow is rejected
/// by verification, and the instance stays as it was.
pub proof fn lemma_foreign_actor_rejected(ctx: ContextView, accept: AcceptFollowView)
    requires
        accept.actor != accept.object.object,
    ensures
        verify_spec(accept, ctx.actors) == Err::<(), AcceptError>(
            AcceptError::Verification(Invariant::ActorIsFollowObject),
        ),
        handle_spec(ctx, accept) == (
            ctx,
            Err::<(), AcceptError>(AcceptError::Verification(Invariant::ActorIsFollowObject)),
        ),
{
}

/// An Accept that names a recipient other than the actor of the embedded
/// Follow is rejected by verification, and the instance stays as it was. The
/// failure names the recipient unless an earlier check failed first.
pub proof fn lemma_foreign_recipient_rejected(ctx: ContextView, accept: AcceptFollowView)
    requires
        accept.to is Some,
        accept.to != Some(accept.object.actor),
    ensures
        verify_spec(accept, ctx.actors) is Err,
        handle_spec(ctx, accept).0 == ctx,
        handle_spec(ctx, accept).1 is Err,
        verify_spec(AcceptFollowView { to: None, ..accept }, ctx.actors) is Ok ==> verify_spec(
            accept,
            ctx.actors,
        ) == Err::<(), AcceptError>(AcceptError::Verification(Invariant::RecipientIsFollowActor)),
{
}

/// An Accept for a community and a person without a relationship on file
/// fails for want of a pending follow. The relationships, the outbox and the
/// notifications stay as they were; the ledger has the identifier on it.
pub proof fn lemma_accept_without_follow_fails(
    ctx: ContextView,
    accept: AcceptFollowView,
    community: CommunityId,
    person: PersonId,
)
    requires
        community_of(resolve_spec(ctx.actors, accept.actor)) == Some(community),
        person_of(resolve_spec(ctx.actors, accept.object.actor)) == Some(person),
        !ctx.follows.contains_key((community, person)),
        !ctx.ledger.contains(accept.id),
    ensures
        receive_spec(ctx, accept).1 == Err::<(), AcceptError>(AcceptError::NoPendingFollow),
        receive_spec(ctx, accept).0 == (ContextView {
            ledger: ctx.ledger.insert(accept.id),
            ..ctx
        }),
        receive_spec(ctx, accept).0.follows == ctx.follows,
{
}

/// An Accept that was sent answers its Follow: its actor is the object of
/// the Follow, its one recipient is the actor of the Follow, and the Follow
/// is inside as it came. It is the last entry of the outbox, and everything
/// before it is as it was.
pub proof fn lemma_sent_accept_answers_follow(ctx: ContextView, follow: FollowView, token: Seq<char>)
    requires
        named_by_url(ctx.actors),
        send_spec(ctx, follow, token).1 is Ok,
    ensures
        send_spec(ctx, follow, token).0.outbox.len() == ctx.outbox.len() + 1,
        send_spec(ctx, follow, token).0.outbox.drop_last() == ctx.outbox,
        send_spec(ctx, follow, token).0.outbox.last().activity.actor == follow.object,
        send_spec(ctx, follow, token).0.outbox.last().activity.to == Some(follow.actor),
        send_spec(ctx, follow, token).0.outbox.last().activity.object == follow,
{
    let after = send_spec(ctx, follow, token).0;
    assert(after.outbox.drop_last() =~= ctx.outbox);
    assert(ctx.actors[follow.object].id == follow.object);
    assert(ctx.actors[follow.actor].id == follow.actor);
}

} // verus!
