//! What a local subscriber is told once a follow is accepted.

use crate::follows::FollowState;
use crate::keys::{CommunityId, LanguageId, LocalUserId, PersonId};
use crate::tables::copy_languages;
use vstd::prelude::*;

verus! {

/// How a person stands to a community.
#[derive(Clone, Copy, Debug, PartialEq, Eq, Structural)]
pub enum SubscribedType {
    NotSubscribed,
    Pending,
    Subscribed,
}

/// A community as one person sees it.
#[derive(Clone, Copy, Debug, PartialEq, Eq, Structural)]
pub struct SubscriptionView {
    pub community: CommunityId,
    pub person: PersonId,
    pub subscribed: SubscribedType,
}

/// How `person` stands to `community` by the relationships on file.
pub open spec fn subscription_of(
    follows: Map<(CommunityId, PersonId), FollowState>,
    community: CommunityId,
    person: PersonId,
) -> SubscriptionView {
    SubscriptionView {
        community,
        person,
        subscribed: if !follows.contains_key((community, person)) {
            SubscribedType::NotSubscribed
        } else {
            match follows[(community, person)] {
                FollowState::Pending => SubscribedType::Pending,
                FollowState::Accepted => SubscribedType::Subscribed,
            }
        },
    }
}

/// Builds the view of `community` for `person` from the state of their
/// relationship.
pub fn subscription_view(community: CommunityId, person: PersonId, state: Option<FollowState>) -> (r:
    SubscriptionView)
    ensures
        r.community == community,
        r.person == person,
        r.subscribed == match state {
            None => SubscribedType::NotSubscribed,
            Some(FollowState::Pending) => SubscribedType::Pending,
            Some(FollowState::Accepted) => SubscribedType::Subscribed,
        },
{
    let subscribed = match state {
        None => SubscribedType::NotSubscribed,
        Some(FollowState::Pending) => SubscribedType::Pending,
        Some(FollowState::Accepted) => SubscribedType::Subscribed,
    };
    SubscriptionView { community, person, subscribed }
}

/// The message for the connection of a local user: the community as the user
/// now sees it, and the languages of its discussions.
#[derive(Debug)]
pub struct Notification {
    pub recipient: LocalUserId,
    pub community_view: SubscriptionView,
    pub discussion_languages: Vec<LanguageId>,
}

/// A [`Notification`] as plain values.
pub ghost struct NotificationView {
    pub recipient: LocalUserId,
    pub community_view: SubscriptionView,
    pub discussion_languages: Seq<LanguageId>,
}

impl View for Notification {
    type V = NotificationView;

    open spec fn view(&self) -> NotificationView {
        NotificationView {
            recipient: self.recipient,
            community_view: self.community_view,
            discussion_languages: self.discussion_languages@,
        }
    }
}

impl Clone for Notification {
    fn clone(&self) -> (r: Self)
        ensures
            r@ == self@,
    {
        Notification {
            recipient: self.recipient,
            community_view: self.community_view,
            discussion_languages: copy_languages(&self.discussion_languages),
        }
    }
}

/// The notification that is due after an accepted follow: one for the local
/// account of the follower, none where the follower has no local account.
pub open spec fn notification_spec(
    recipient: Option<LocalUserId>,
    community_view: SubscriptionView,
    discussion_languages: Seq<LanguageId>,
) -> Option<NotificationView> {
    match recipient {
        Some(recipient) => Some(NotificationView { recipient, community_view, discussion_languages }),
        None => None,
    }
}

} // verus!
