use accept_follow::actor::ActorKey;
use accept_follow::context::Context;
use accept_follow::error::AcceptError;
use accept_follow::flow::{ReceiveStep, Reply};
use accept_follow::follows::{FollowState, FollowStore};
use accept_follow::iri::Iri;
use accept_follow::keys::{CommunityId, LanguageId, LocalUserId, PersonId};
use accept_follow::ledger::{ActivityLedger, Admission};
use accept_follow::notify::{subscription_view, SubscribedType, SubscriptionView};
use accept_follow::protocol::{AcceptFollow, Follow};
use accept_follow::tables::{copy_languages, CommunityLanguages, LocalUsers};

fn iri(text: &str) -> Iri {
    Iri::parse(text).unwrap()
}

fn accept() -> AcceptFollow {
    AcceptFollow {
        id: iri("https://far.example/activities/accept/9"),
        actor: iri("https://far.example/c/rust"),
        to: None,
        object: Follow {
            id: iri("https://home.example/activities/follow/1"),
            actor: iri("https://home.example/u/alice"),
            to: None,
            object: iri("https://far.example/c/rust"),
        },
    }
}

fn view() -> SubscriptionView {
    subscription_view(CommunityId(7), PersonId(3), Some(FollowState::Accepted))
}

fn is_done(step: &ReceiveStep, outcome: Result<(), AcceptError>) -> bool {
    step.outcome() == Some(outcome)
}

#[test]
fn ledger_lets_an_identifier_in_once() {
    let mut ledger = ActivityLedger::new();
    let id = iri("https://far.example/activities/accept/1");
    assert!(!ledger.contains(&id));
    assert_eq!(ledger.record(&id), Admission::Fresh);
    assert!(ledger.contains(&id));
    assert_eq!(ledger.record(&id), Admission::Duplicate);
    assert_eq!(
        ledger.record(&iri("https://far.example/activities/accept/2")),
        Admission::Fresh
    );
    assert_eq!(ledger.record(&id), Admission::Duplicate);
}

#[test]
fn follow_accepted_marks_the_one_relationship() {
    let mut store = FollowStore::new();
    store.follow(CommunityId(1), PersonId(1), FollowState::Pending);
    store.follow(CommunityId(1), PersonId(2), FollowState::Pending);
    store.follow(CommunityId(2), PersonId(1), FollowState::Pending);
    assert_eq!(store.follow_accepted(CommunityId(1), PersonId(2)), Ok(()));
    assert_eq!(store.state_of(CommunityId(1), PersonId(1)), Some(FollowState::Pending));
    assert_eq!(store.state_of(CommunityId(1), PersonId(2)), Some(FollowState::Accepted));
    assert_eq!(store.state_of(CommunityId(2), PersonId(1)), Some(FollowState::Pending));
    assert_eq!(store.state_of(CommunityId(2), PersonId(2)), None);
}

#[test]
fn follow_accepted_without_relationship_fails() {
    let mut store = FollowStore::new();
    assert_eq!(
        store.follow_accepted(CommunityId(1), PersonId(1)),
        Err(AcceptError::NoPendingFollow)
    );
    store.follow(CommunityId(1), PersonId(2), FollowState::Pending);
    assert_eq!(
        store.follow_accepted(CommunityId(2), PersonId(1)),
        Err(AcceptError::NoPendingFollow)
    );
    assert_eq!(store.state_of(CommunityId(1), PersonId(2)), Some(FollowState::Pending));
}

#[test]
fn follow_accepted_twice_is_harmless() {
    let mut store = FollowStore::new();
    store.follow(CommunityId(1), PersonId(1), FollowState::Pending);
    assert_eq!(store.follow_accepted(CommunityId(1), PersonId(1)), Ok(()));
    assert_eq!(store.follow_accepted(CommunityId(1), PersonId(1)), Ok(()));
    assert_eq!(store.state_of(CommunityId(1), PersonId(1)), Some(FollowState::Accepted));
}

#[test]
fn later_follow_replaces_the_earlier() {
    let mut store = FollowStore::new();
    store.follow(CommunityId(1), PersonId(1), FollowState::Accepted);
    store.follow(CommunityId(1), PersonId(1), FollowState::Pending);
    assert_eq!(store.state_of(CommunityId(1), PersonId(1)), Some(FollowState::Pending));
    assert_eq!(store.follow_accepted(CommunityId(1), PersonId(1)), Ok(()));
    assert_eq!(store.state_of(CommunityId(1), PersonId(1)), Some(FollowState::Accepted));
}

#[test]
fn subscription_view_follows_the_state() {
    assert_eq!(
        subscription_view(CommunityId(1), PersonId(2), None).subscribed,
        SubscribedType::NotSubscribed
    );
    assert_eq!(
        subscription_view(CommunityId(1), PersonId(2), Some(FollowState::Pending)).subscribed,
        SubscribedType::Pending
    );
    let v = subscription_view(CommunityId(1), PersonId(2), Some(FollowState::Accepted));
    assert_eq!(v.subscribed, SubscribedType::Subscribed);
    assert_eq!(v.community, CommunityId(1));
    assert_eq!(v.person, PersonId(2));
}

#[test]
fn tables_answer_what_was_put_in() {
    let mut users = LocalUsers::new();
    assert_eq!(users.local_user_by_person(PersonId(1)), None);
    users.insert(PersonId(1), LocalUserId(10));
    users.insert(PersonId(2), LocalUserId(20));
    users.insert(PersonId(1), LocalUserId(11));
    assert_eq!(users.local_user_by_person(PersonId(1)), Some(LocalUserId(11)));
    assert_eq!(users.local_user_by_person(PersonId(2)), Some(LocalUserId(20)));

    let mut languages = CommunityLanguages::new();
    assert!(languages.read(CommunityId(1)).is_empty());
    languages.set(CommunityId(1), vec![LanguageId(5), LanguageId(6)]);
    assert_eq!(languages.read(CommunityId(1)), vec![LanguageId(5), LanguageId(6)]);
    assert!(languages.read(CommunityId(2)).is_empty());
    assert_eq!(
        copy_languages(&vec![LanguageId(3), LanguageId(1), LanguageId(3)]),
        vec![LanguageId(3), LanguageId(1), LanguageId(3)]
    );
}

#[test]
fn steps_run_in_order() {
    let a = accept();
    let step = ReceiveStep::start(&a);
    assert!(matches!(
        &step,
        ReceiveStep::Record { id, local: false, sensitive: true } if id.as_str() == a.id.as_str()
    ));
    assert_eq!(step.outcome(), None);
    let step = step.step(&a, Reply::Recorded(Admission::Fresh));
    assert!(matches!(&step, ReceiveStep::ResolveCommunity { url } if url.as_str() == a.actor.as_str()));
    let step = step.step(&a, Reply::Resolved(Some(ActorKey::Community(CommunityId(7)))));
    assert!(matches!(
        &step,
        ReceiveStep::ResolvePerson { url, community }
            if url.as_str() == a.object.actor.as_str() && *community == CommunityId(7)
    ));
    let step = step.step(&a, Reply::Resolved(Some(ActorKey::Person(PersonId(3)))));
    assert!(matches!(
        &step,
        ReceiveStep::AcceptFollow { community, person }
            if *community == CommunityId(7) && *person == PersonId(3)
    ));
    let step = step.step(&a, Reply::FollowAccepted { found: true });
    assert!(matches!(
        &step,
        ReceiveStep::ReadView { community, person }
            if *community == CommunityId(7) && *person == PersonId(3)
    ));
    let step = step.step(&a, Reply::CommunityView(view()));
    assert!(matches!(
        &step,
        ReceiveStep::ReadLanguages { community, .. } if *community == CommunityId(7)
    ));
    let step = step.step(&a, Reply::Languages(vec![LanguageId(1)]));
    assert!(matches!(
        &step,
        ReceiveStep::ReadLocalUser { person, .. } if *person == PersonId(3)
    ));
    let step = step.step(&a, Reply::LocalUser(Some(LocalUserId(42))));
    match &step {
        ReceiveStep::Notify { notification } => {
            assert_eq!(notification.recipient, LocalUserId(42));
            assert_eq!(notification.community_view, view());
            assert_eq!(notification.discussion_languages, vec![LanguageId(1)]);
        }
        other => panic!("unexpected step {:?}", other),
    }
    let step = step.step(&a, Reply::Notified);
    assert!(is_done(&step, Ok(())));
    let step = step.step(&a, Reply::Notified);
    assert!(is_done(&step, Ok(())));
}

#[test]
fn duplicate_ends_the_run_with_success() {
    let a = accept();
    let step = ReceiveStep::start(&a).step(&a, Reply::Recorded(Admission::Duplicate));
    assert!(is_done(&step, Ok(())));
}

#[test]
fn unresolved_actor_ends_the_run() {
    let a = accept();
    let at_community = || ReceiveStep::start(&a).step(&a, Reply::Recorded(Admission::Fresh));
    assert!(is_done(
        &at_community().step(&a, Reply::Resolved(None)),
        Err(AcceptError::Dereference)
    ));
    assert!(is_done(
        &at_community().step(&a, Reply::Failed),
        Err(AcceptError::Dereference)
    ));
    assert!(is_done(
        &at_community().step(&a, Reply::Resolved(Some(ActorKey::Person(PersonId(3))))),
        Err(AcceptError::Dereference)
    ));
    let at_person = || {
        at_community().step(&a, Reply::Resolved(Some(ActorKey::Community(CommunityId(7)))))
    };
    assert!(is_done(
        &at_person().step(&a, Reply::Resolved(None)),
        Err(AcceptError::Dereference)
    ));
    assert!(is_done(
        &at_person().step(&a, Reply::Resolved(Some(ActorKey::Community(CommunityId(7))))),
        Err(AcceptError::Dereference)
    ));
}

#[test]
fn missing_relationship_ends_the_run() {
    let a = accept();
    let step = ReceiveStep::AcceptFollow { community: CommunityId(7), person: PersonId(3) };
    assert!(is_done(
        &step.step(&a, Reply::FollowAccepted { found: false }),
        Err(AcceptError::NoPendingFollow)
    ));
}

#[test]
fn storage_failure_ends_the_run() {
    let a = accept();
    assert!(is_done(
        &ReceiveStep::start(&a).step(&a, Reply::Failed),
        Err(AcceptError::Storage)
    ));
    let step = ReceiveStep::AcceptFollow { community: CommunityId(7), person: PersonId(3) };
    assert!(is_done(&step.step(&a, Reply::Failed), Err(AcceptError::Storage)));
    let step = ReceiveStep::ReadView { community: CommunityId(7), person: PersonId(3) };
    assert!(is_done(&step.step(&a, Reply::Failed), Err(AcceptError::Storage)));
    let step = ReceiveStep::ReadLanguages {
        community: CommunityId(7),
        person: PersonId(3),
        community_view: view(),
    };
    assert!(is_done(&step.step(&a, Reply::Failed), Err(AcceptError::Storage)));
    let step = ReceiveStep::ReadLocalUser {
        person: PersonId(3),
        community_view: view(),
        discussion_languages: vec![],
    };
    assert!(is_done(&step.step(&a, Reply::Failed), Err(AcceptError::Storage)));
}

#[test]
fn reply_to_another_request_ends_the_run() {
    let a = accept();
    assert!(is_done(
        &ReceiveStep::start(&a).step(&a, Reply::Notified),
        Err(AcceptError::Storage)
    ));
    let step = ReceiveStep::ReadView { community: CommunityId(7), person: PersonId(3) };
    assert!(is_done(
        &step.step(&a, Reply::Recorded(Admission::Fresh)),
        Err(AcceptError::Storage)
    ));
}

#[test]
fn person_without_account_ends_the_run_with_success() {
    let a = accept();
    let step = ReceiveStep::ReadLocalUser {
        person: PersonId(3),
        community_view: view(),
        discussion_languages: vec![LanguageId(1)],
    };
    assert!(is_done(&step.step(&a, Reply::LocalUser(None)), Ok(())));
}

#[test]
fn failed_notification_does_not_fail_the_run() {
    let a = accept();
    let step = ReceiveStep::ReadLocalUser {
        person: PersonId(3),
        community_view: view(),
        discussion_languages: vec![],
    }
    .step(&a, Reply::LocalUser(Some(LocalUserId(1))));
    assert!(is_done(&step.step(&a, Reply::Failed), Ok(())));
}

#[test]
fn finished_run_keeps_its_outcome() {
    let a = accept();
    let step = ReceiveStep::Done(Err(AcceptError::NoPendingFollow));
    assert!(is_done(
        &step.step(&a, Reply::Recorded(Admission::Fresh)),
        Err(AcceptError::NoPendingFollow)
    ));
}

#[test]
fn context_serves_each_request() {
    let mut ctx = Context::new("https://home.example");
    ctx.follows.follow(CommunityId(7), PersonId(3), FollowState::Pending);
    ctx.local_users.insert(PersonId(3), LocalUserId(42));
    let a = accept();
    assert!(matches!(
        ctx.serve(&ReceiveStep::start(&a)),
        Reply::Recorded(Admission::Fresh)
    ));
    assert!(matches!(
        ctx.serve(&ReceiveStep::start(&a)),
        Reply::Recorded(Admission::Duplicate)
    ));
    assert!(matches!(
        ctx.serve(&ReceiveStep::ResolveCommunity { url: iri("https://far.example/c/rust") }),
        Reply::Resolved(None)
    ));
    assert!(matches!(
        ctx.serve(&ReceiveStep::ReadView { community: CommunityId(7), person: PersonId(3) }),
        Reply::CommunityView(v) if v.subscribed == SubscribedType::Pending
    ));
    assert!(matches!(
        ctx.serve(&ReceiveStep::AcceptFollow { community: CommunityId(7), person: PersonId(3) }),
        Reply::FollowAccepted { found: true }
    ));
    assert!(matches!(
        ctx.serve(&ReceiveStep::AcceptFollow { community: CommunityId(7), person: PersonId(4) }),
        Reply::FollowAccepted { found: false }
    ));
    assert!(matches!(
        ctx.serve(&ReceiveStep::ReadView { community: CommunityId(7), person: PersonId(3) }),
        Reply::CommunityView(v) if v.subscribed == SubscribedType::Subscribed
    ));
    assert!(matches!(
        ctx.serve(&ReceiveStep::ReadLocalUser {
            person: PersonId(3),
            community_view: view(),
            discussion_languages: vec![]
        }),
        Reply::LocalUser(Some(LocalUserId(42)))
    ));
    assert!(matches!(ctx.serve(&ReceiveStep::Done(Ok(()))), Reply::Failed));
    assert!(ctx.notifications.is_empty());
}
