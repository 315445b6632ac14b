//! The instance that the handshake runs on.
//!
//! A [`Context`] holds in memory what an instance keeps and what it hands to
//! its transports: the actors it can resolve, the ledger of processed
//! activities, the follow relationships, the local accounts, the languages of
//! the communities, the activities waiting for delivery and the notifications
//! pushed to local connections.

use crate::actor::{ActorDirectory, ActorView};
use crate::follows::{FollowState, FollowStore};
use crate::iri::Iri;
use crate::keys::{CommunityId, LanguageId, LocalUserId, PersonId};
use crate::ledger::ActivityLedger;
use crate::notify::{Notification, NotificationView};
use crate::protocol::{AcceptFollow, AcceptFollowView};
use crate::tables::{CommunityLanguages, LocalUsers};
use vstd::prelude::*;
use vstd::string::*;

verus! {

/// An activity on its way out, with the inboxes it goes to.
#[derive(Debug)]
pub struct Delivery {
    pub activity: AcceptFollow,
    pub sender: Iri,
    pub inboxes: Vec<Iri>,
}

/// A [`Delivery`] as plain values.
pub ghost struct DeliveryView {
    pub activity: AcceptFollowView,
    pub sender: Seq<char>,
    pub inboxes: Seq<Seq<char>>,
}

impl View for Delivery {
    type V = DeliveryView;

    open spec fn view(&self) -> DeliveryView {
        DeliveryView {
            activity: self.activity@,
            sender: self.sender@,
            inboxes: self.inboxes@.map_values(|inbox: Iri| inbox@),
        }
    }
}

/// The state of an instance.
#[derive(Debug)]
pub struct Context {
    /// Protocol and host name of the instance, as in `https://example.org`.
    pub origin: String,
    pub actors: ActorDirectory,
    pub ledger: ActivityLedger,
    pub follows: FollowStore,
    pub local_users: LocalUsers,
    pub languages: CommunityLanguages,
    /// What was handed to the outbound dispatcher, oldest first.
    pub outbox: Vec<Delivery>,
    /// What was pushed to local connections, oldest first.
    pub notifications: Vec<Notification>,
}

/// A [`Context`] as plain values.
pub ghost struct ContextView {
    pub origin: Seq<char>,
    pub actors: Map<Seq<char>, ActorView>,
    pub ledger: Set<Seq<char>>,
    pub follows: Map<(CommunityId, PersonId), FollowState>,
    pub local_users: Map<PersonId, LocalUserId>,
    pub languages: Map<CommunityId, Seq<LanguageId>>,
    pub outbox: Seq<DeliveryView>,
    pub notifications: Seq<NotificationView>,
}

impl View for Context {
    type V = ContextView;

    open spec fn view(&self) -> ContextView {
        ContextView {
            origin: self.origin@,
            actors: self.actors@,
            ledger: self.ledger@,
            follows: self.follows@,
            local_users: self.local_users@,
            languages: self.languages@,
            outbox: self.outbox@.map_values(|delivery: Delivery| delivery@),
            notifications: self.notifications@.map_values(|n: Notification| n@),
        }
    }
}

impl Context {
    /// An instance at `origin` with nothing on file.
    pub fn new(origin: &str) -> (r: Self)
        ensures
            r@ == (ContextView {
                origin: origin@,
                actors: Map::empty(),
                ledger: Set::empty(),
                follows: Map::empty(),
                local_users: Map::empty(),
                languages: Map::empty(),
                outbox: Seq::empty(),
                notifications: Seq::empty(),
            }),
    {
        let r = Context {
            origin: String::from_str(origin),
            actors: ActorDirectory::new(),
            ledger: ActivityLedger::new(),
            follows: FollowStore::new(),
            local_users: LocalUsers::new(),
            languages: CommunityLanguages::new(),
            outbox: Vec::new(),
            notifications: Vec::new(),
        };
        assert(r@.outbox =~= Seq::empty());
        assert(r@.notifications =~= Seq::empty());
        r
    }

    /// Hands `delivery` to the outbound dispatcher.
    pub fn deliver(&mut self, delivery: Delivery)
        ensures
            final(self)@ == (ContextView { outbox: old(self)@.outbox.push(delivery@), ..old(self)@ }),
    {
        self.outbox.push(delivery);
        assert(self@.outbox =~= old(self)@.outbox.push(delivery@));
    }

    /// Pushes `notification` to the connection of its recipient.
    pub fn notify(&mut self, notification: Notification)
        ensures
            final(self)@ == (ContextView {
                notifications: old(self)@.notifications.push(notification@),
                ..old(self)@
            }),
    {
        self.notifications.push(notification);
        assert(self@.notifications =~= old(self)@.notifications.push(notification@));
    }
}

} // verus!
