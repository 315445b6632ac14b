//! Receiving an Accept, one request at a time.
//!
//! An instance that keeps its state behind storage and network calls cannot
//! hand it over as a [`crate::context::Context`]. For such an instance the
//! receive path is a sequence of requests: a [`ReceiveStep`] says what is
//! asked of the ledger, the resolver, the storage or the notification channel
//! next; the caller performs it and answers with a [`Reply`]; [`ReceiveStep::step`]
//! decides what follows. The run ends at [`ReceiveStep::Done`].

use crate::accept::receive_spec;
use crate::actor::{resolve_spec, ActorKey};
use crate::context::{Context, ContextView};
use crate::error::AcceptError;
use crate::follows::follow_accepted_spec;
use crate::iri::Iri;
use crate::keys::{CommunityId, LanguageId, LocalUserId, PersonId};
use crate::ledger::{record_spec, Admission};
use crate::notify::{
    subscription_of, subscription_view, Notification, NotificationView, SubscriptionView,
};
use crate::protocol::{AcceptFollow, AcceptFollowView};
use crate::tables::{languages_spec, local_user_spec};
use vstd::prelude::*;

verus! {

/// What the receive path asks for next.
#[derive(Debug)]
pub enum ReceiveStep {
    /// Put the identifier of the Accept on the ledger unless it is there,
    /// with the activity marked as sent from here or not, and as one to keep
    /// from public view or not.
    Record { id: Iri, local: bool, sensitive: bool },
    /// Resolve the actor of the Accept.
    ResolveCommunity { url: Iri },
    /// Resolve the actor of the embedded Follow.
    ResolvePerson { url: Iri, community: CommunityId },
    /// Mark the relationship as accepted.
    AcceptFollow { community: CommunityId, person: PersonId },
    /// Read the community as the person sees it now.
    ReadView { community: CommunityId, person: PersonId },
    /// Read the languages of the community.
    ReadLanguages { community: CommunityId, person: PersonId, community_view: SubscriptionView },
    /// Look up the local account of the person.
    ReadLocalUser {
        person: PersonId,
        community_view: SubscriptionView,
        discussion_languages: Vec<LanguageId>,
    },
    /// Push the notification to the connection of its recipient.
    Notify { notification: Notification },
    /// Nothing more: the outcome of receiving.
    Done(Result<(), AcceptError>),
}

/// What came of a request.
#[derive(Debug)]
pub enum Reply {
    /// The ledger's answer.
    Recorded(Admission),
    /// The actor that the URL resolved to, if it resolved.
    Resolved(Option<ActorKey>),
    /// Whether a relationship was on file to be marked.
    FollowAccepted { found: bool },
    /// The community as the person sees it.
    CommunityView(SubscriptionView),
    /// The languages of the community.
    Languages(Vec<LanguageId>),
    /// The local account of the person, if there is one.
    LocalUser(Option<LocalUserId>),
    /// The notification was handed over.
    Notified,
    /// Storage or network failed.
    Failed,
}

/// A [`ReceiveStep`] as plain values.
pub ghost enum ReceiveStepView {
    Record { id: Seq<char>, local: bool, sensitive: bool },
    ResolveCommunity { url: Seq<char> },
    ResolvePerson { url: Seq<char>, community: CommunityId },
    AcceptFollow { community: CommunityId, person: PersonId },
    ReadView { community: CommunityId, person: PersonId },
    ReadLanguages { community: CommunityId, person: PersonId, community_view: SubscriptionView },
    ReadLocalUser {
        person: PersonId,
        community_view: SubscriptionView,
        discussion_languages: Seq<LanguageId>,
    },
    Notify { notification: NotificationView },
    Done(Result<(), AcceptError>),
}

/// A [`Reply`] as plain values.
pub ghost enum ReplyView {
    Recorded(Admission),
    Resolved(Option<ActorKey>),
    FollowAccepted { found: bool },
    CommunityView(SubscriptionView),
    Languages(Seq<LanguageId>),
    LocalUser(Option<LocalUserId>),
    Notified,
    Failed,
}

impl View for ReceiveStep {
    type V = ReceiveStepView;

    open spec fn view(&self) -> ReceiveStepView {
        match *self {
            ReceiveStep::Record { id, local, sensitive } => ReceiveStepView::Record {
                id: id@,
                local,
                sensitive,
            },
            ReceiveStep::ResolveCommunity { url } => ReceiveStepView::ResolveCommunity { url: url@ },
            ReceiveStep::ResolvePerson { url, community } => ReceiveStepView::ResolvePerson {
                url: url@,
                community,
            },
            ReceiveStep::AcceptFollow { community, person } => ReceiveStepView::AcceptFollow {
                community,
                person,
            },
            ReceiveStep::ReadView { community, person } => ReceiveStepView::ReadView {
                community,
                person,
            },
            ReceiveStep::ReadLanguages {
                community,
                person,
                community_view,
            } => ReceiveStepView::ReadLanguages { community, person, community_view },
            ReceiveStep::ReadLocalUser {
                person,
                community_view,
                discussion_languages,
            } => ReceiveStepView::ReadLocalUser {
                person,
                community_view,
                discussion_languages: discussion_languages@,
            },
            ReceiveStep::Notify { notification } => ReceiveStepView::Notify {
                notification: notification@,
            },
            ReceiveStep::Done(outcome) => ReceiveStepView::Done(outcome),
        }
    }
}

impl View for Reply {
    type V = ReplyView;

    open spec fn view(&self) -> ReplyView {
        match *self {
            Reply::Recorded(admission) => ReplyView::Recorded(admission),
            Reply::Resolved(key) => ReplyView::Resolved(key),
            Reply::FollowAccepted { found } => ReplyView::FollowAccepted { found },
            Reply::CommunityView(community_view) => ReplyView::CommunityView(community_view),
            Reply::Languages(languages) => ReplyView::Languages(languages@),
            Reply::LocalUser(user) => ReplyView::LocalUser(user),
            Reply::Notified => ReplyView::Notified,
            Reply::Failed => ReplyView::Failed,
        }
    }
}

/// The first request of the receive path: an Accept that is received was not
/// sent from here, and it is kept from public view.
pub open spec fn start_spec(accept: AcceptFollowView) -> ReceiveStepView {
    ReceiveStepView::Record { id: accept.id, local: false, sensitive: true }
}

/// What follows on `reply` to the request `step`.
///
/// A repeated delivery ends the run with success. An actor that does not
/// resolve, or not to the kind that is asked for, ends it with a dereference
/// failure; a missing relationship with the failure that says so. A person
/// without a local account ends it with success and without a notification.
/// Whatever the notification channel answers, the run ends with success. A
/// failure of storage, and a reply to another request than the one that was
/// made, end the run with a storage failure.
pub open spec fn step_spec(
    step: ReceiveStepView,
    accept: AcceptFollowView,
    reply: ReplyView,
) -> ReceiveStepView {
    match step {
        ReceiveStepView::Record { id, local, sensitive } => match reply {
            ReplyView::Recorded(Admission::Fresh) => ReceiveStepView::ResolveCommunity {
                url: accept.actor,
            },
            ReplyView::Recorded(Admission::Duplicate) => ReceiveStepView::Done(Ok(())),
            _ => ReceiveStepView::Done(Err(AcceptError::Storage)),
        },
        ReceiveStepView::ResolveCommunity { url } => match reply {
            ReplyView::Resolved(Some(ActorKey::Community(community))) => ReceiveStepView::ResolvePerson {
                url: accept.object.actor,
                community,
            },
            ReplyView::Resolved(_) => ReceiveStepView::Done(Err(AcceptError::Dereference)),
            ReplyView::Failed => ReceiveStepView::Done(Err(AcceptError::Dereference)),
            _ => ReceiveStepView::Done(Err(AcceptError::Storage)),
        },
        ReceiveStepView::ResolvePerson { url, community } => match reply {
            ReplyView::Resolved(Some(ActorKey::Person(person))) => ReceiveStepView::AcceptFollow {
                community,
                person,
            },
            ReplyView::Resolved(_) => ReceiveStepView::Done(Err(AcceptError::Dereference)),
            ReplyView::Failed => ReceiveStepView::Done(Err(AcceptError::Dereference)),
            _ => ReceiveStepView::Done(Err(AcceptError::Storage)),
        },
        ReceiveStepView::AcceptFollow { community, person } => match reply {
            ReplyView::FollowAccepted { found } => if found {
                ReceiveStepView::ReadView { community, person }
            } else {
                ReceiveStepView::Done(Err(AcceptError::NoPendingFollow))
            },
            _ => ReceiveStepView::Done(Err(AcceptError::Storage)),
        },
        ReceiveStepView::ReadView { community, person } => match reply {
            ReplyView::CommunityView(community_view) => ReceiveStepView::ReadLanguages {
                community,
                person,
                community_view,
            },
            _ => ReceiveStepView::Done(Err(AcceptError::Storage)),
        },
        ReceiveStepView::ReadLanguages { community, person, community_view } => match reply {
            ReplyView::Languages(discussion_languages) => ReceiveStepView::ReadLocalUser {
                person,
                community_view,
                discussion_languages,
            },
            _ => ReceiveStepView::Done(Err(AcceptError::Storage)),
        },
        ReceiveStepView::ReadLocalUser {
            person,
            community_view,
            discussion_languages,
        } => match reply {
            ReplyView::LocalUser(Some(recipient)) => ReceiveStepView::Notify {
                notification: NotificationView { recipient, community_view, discussion_languages },
            },
            ReplyView::LocalUser(None) => ReceiveStepView::Done(Ok(())),
            _ => ReceiveStepView::Done(Err(AcceptError::Storage)),
        },
        ReceiveStepView::Notify { notification } => ReceiveStepView::Done(Ok(())),
        ReceiveStepView::Done(outcome) => ReceiveStepView::Done(outcome),
    }
}

impl ReceiveStep {
    /// The first request of the receive path for `accept`.
    pub fn start(accept: &AcceptFollow) -> (r: ReceiveStep)
        ensures
            r@ == start_spec(accept@),
    {
        ReceiveStep::Record { id: accept.id.clone(), local: false, sensitive: true }
    }

    /// The outcome of the run, once it has ended.
    pub fn outcome(&self) -> (r: Option<Result<(), AcceptError>>)
        ensures
            r == (match self@ {
                ReceiveStepView::Done(outcome) => Some(outcome),
                _ => None,
            }),
    {
        match self {
            ReceiveStep::Done(outcome) => Some(*outcome),
            _ => None,
        }
    }

    /// Decides what follows on `reply` to this request.
    pub fn step(self, accept: &AcceptFollow, reply: Reply) -> (r: ReceiveStep)
        ensures
            r@ == step_spec(self@, accept@, reply@),
    {
        match self {
            ReceiveStep::Record { id, local, sensitive } => match reply {
                Reply::Recorded(Admission::Fresh) => ReceiveStep::ResolveCommunity {
                    url: accept.actor.clone(),
                },
                Reply::Recorded(Admission::Duplicate) => ReceiveStep::Done(Ok(())),
                _ => ReceiveStep::Done(Err(AcceptError::Storage)),
            },
            ReceiveStep::ResolveCommunity { url } => match reply {
                Reply::Resolved(Some(ActorKey::Community(community))) => ReceiveStep::ResolvePerson {
                    url: accept.object.actor.clone(),
                    community,
                },
                Reply::Resolved(_) => ReceiveStep::Done(Err(AcceptError::Dereference)),
                Reply::Failed => ReceiveStep::Done(Err(AcceptError::Dereference)),
                _ => ReceiveStep::Done(Err(AcceptError::Storage)),
            },
            ReceiveStep::ResolvePerson { url, community } => match reply {
                Reply::Resolved(Some(ActorKey::Person(person))) => ReceiveStep::AcceptFollow {
                    community,
                    person,
                },
                Reply::Resolved(_) => ReceiveStep::Done(Err(AcceptError::Dereference)),
                Reply::Failed => ReceiveStep::Done(Err(AcceptError::Dereference)),
                _ => ReceiveStep::Done(Err(AcceptError::Storage)),
            },
            ReceiveStep::AcceptFollow { community, person } => match reply {
                Reply::FollowAccepted { found } => if found {
                    ReceiveStep::ReadView { community, person }
                } else {
                    ReceiveStep::Done(Err(AcceptError::NoPendingFollow))
                },
                _ => ReceiveStep::Done(Err(AcceptError::Storage)),
            },
            ReceiveStep::ReadView { community, person } => match reply {
                Reply::CommunityView(community_view) => ReceiveStep::ReadLanguages {
                    community,
                    person,
                    community_view,
                },
                _ => ReceiveStep::Done(Err(AcceptError::Storage)),
            },
            ReceiveStep::ReadLanguages { community, person, community_view } => match reply {
                Reply::Languages(discussion_languages) => ReceiveStep::ReadLocalUser {
                    person,
                    community_view,
                    discussion_languages,
                },
                _ => ReceiveStep::Done(Err(AcceptError::Storage)),
            },
            ReceiveStep::ReadLocalUser { person, community_view, discussion_languages } => match reply {
                Reply::LocalUser(Some(recipient)) => ReceiveStep::Notify {
                    notification: Notification { recipient, community_view, discussion_languages },
                },
                Reply::LocalUser(None) => ReceiveStep::Done(Ok(())),
                _ => ReceiveStep::Done(Err(AcceptError::Storage)),
            },
            ReceiveStep::Notify { notification } => ReceiveStep::Done(Ok(())),
            ReceiveStep::Done(outcome) => ReceiveStep::Done(outcome),
        }
    }
}

/// How many requests a run can still make from `step`.
pub open spec fn requests_left(step: ReceiveStepView) -> nat {
    match step {
        ReceiveStepView::Record { .. } => 8,
        ReceiveStepView::ResolveCommunity { .. } => 7,
        ReceiveStepView::ResolvePerson { .. } => 6,
        ReceiveStepView::AcceptFollow { .. } => 5,
        ReceiveStepView::ReadView { .. } => 4,
        ReceiveStepView::ReadLanguages { .. } => 3,
        ReceiveStepView::ReadLocalUser { .. } => 2,
        ReceiveStepView::Notify { .. } => 1,
        ReceiveStepView::Done(_) => 0,
    }
}

/// The key of the actor on file under `url`, if there is one.
pub open spec fn resolved_key(ctx: ContextView, url: Seq<char>) -> Option<ActorKey> {
    match resolve_spec(ctx.actors, url) {
        Some(actor) => Some(actor.key),
        None => None,
    }
}

/// What an instance in memory answers to the request `step`, and how the
/// request leaves it. Nothing fails in memory. A run that has ended asks for
/// nothing, and the answer to that is a failure.
pub open spec fn serve_spec(ctx: ContextView, step: ReceiveStepView) -> (ContextView, ReplyView) {
    match step {
        ReceiveStepView::Record { id, local, sensitive } => (
            ContextView { ledger: record_spec(ctx.ledger, id).0, ..ctx },
            ReplyView::Recorded(record_spec(ctx.ledger, id).1),
        ),
        ReceiveStepView::ResolveCommunity { url } => (ctx, ReplyView::Resolved(resolved_key(ctx, url))),
        ReceiveStepView::ResolvePerson { url, community } => (
            ctx,
            ReplyView::Resolved(resolved_key(ctx, url)),
        ),
        ReceiveStepView::AcceptFollow { community, person } => (
            ContextView { follows: follow_accepted_spec(ctx.follows, community, person).0, ..ctx },
            ReplyView::FollowAccepted {
                found: follow_accepted_spec(ctx.follows, community, person).1 is Ok,
            },
        ),
        ReceiveStepView::ReadView { community, person } => (
            ctx,
            ReplyView::CommunityView(subscription_of(ctx.follows, community, person)),
        ),
        ReceiveStepView::ReadLanguages { community, person, community_view } => (
            ctx,
            ReplyView::Languages(languages_spec(ctx.languages, community)),
        ),
        ReceiveStepView::ReadLocalUser { person, community_view, discussion_languages } => (
            ctx,
            ReplyView::LocalUser(local_user_spec(ctx.local_users, person)),
        ),
        ReceiveStepView::Notify { notification } => (
            ContextView { notifications: ctx.notifications.push(notification), ..ctx },
            ReplyView::Notified,
        ),
        ReceiveStepView::Done(_) => (ctx, ReplyView::Failed),
    }
}

/// The instance and the outcome at the end of the run that goes on from
/// `step`, every request served in memory.
pub open spec fn run_spec(ctx: ContextView, accept: AcceptFollowView, step: ReceiveStepView) -> (
    ContextView,
    Result<(), AcceptError>,
)
    decreases requests_left(step),
{
    match step {
        ReceiveStepView::Done(outcome) => (ctx, outcome),
        _ => run_spec(
            serve_spec(ctx, step).0,
            accept,
            step_spec(step, accept, serve_spec(ctx, step).1),
        ),
    }
}

/// The run of requests, served in memory from its first request on, does to
/// the instance what receiving is defined to do, and ends with the same
/// outcome.
pub proof fn lemma_run_is_receive(ctx: ContextView, accept: AcceptFollowView)
    ensures
        run_spec(ctx, accept, start_spec(accept)) == receive_spec(ctx, accept),
{
    reveal_with_fuel(run_spec, 10);
}

impl Context {
    /// Serves the request `step` from memory.
    pub fn serve(&mut self, step: &ReceiveStep) -> (r: Reply)
        ensures
            (final(self)@, r@) == serve_spec(old(self)@, step@),
    {
        match step {
            ReceiveStep::Record { id, local, sensitive } => Reply::Recorded(self.ledger.record(id)),
            ReceiveStep::ResolveCommunity { url } => match self.actors.resolve(url) {
                Some(actor) => Reply::Resolved(Some(actor.key)),
                None => Reply::Resolved(None),
            },
            ReceiveStep::ResolvePerson { url, community } => match self.actors.resolve(url) {
                Some(actor) => Reply::Resolved(Some(actor.key)),
                None => Reply::Resolved(None),
            },
            ReceiveStep::AcceptFollow { community, person } => {
                let outcome = self.follows.follow_accepted(*community, *person);
                Reply::FollowAccepted { found: outcome.is_ok() }
            },
            ReceiveStep::ReadView { community, person } => Reply::CommunityView(
                subscription_view(*community, *person, self.follows.state_of(*community, *person)),
            ),
            ReceiveStep::ReadLanguages { community, person, community_view } => Reply::Languages(
                self.languages.read(*community),
            ),
            ReceiveStep::ReadLocalUser {
                person,
                community_view,
                discussion_languages,
            } => Reply::LocalUser(self.local_users.local_user_by_person(*person)),
            ReceiveStep::Notify { notification } => {
                self.notify(notification.clone());
                Reply::Notified
            },
            ReceiveStep::Done(_) => Reply::Failed,
        }
    }
}

} // verus!
