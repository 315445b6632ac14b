use accept_follow::actor::{Actor, ActorDirectory, ActorKey};
use accept_follow::context::Context;
use accept_follow::error::AcceptError;
use accept_follow::ident::{activity_id_from_token, generate_activity_id, ActivityKind};
use accept_follow::iri::{InvalidUrl, Iri};
use accept_follow::keys::{CommunityId, PersonId};
use accept_follow::protocol::{AcceptFollow, Follow};

const ORIGIN: &str = "https://home.example";
const COMMUNITY: &str = "https://home.example/c/rust";
const PERSON: &str = "https://far.example/u/bob";

fn iri(text: &str) -> Iri {
    Iri::parse(text).unwrap()
}

fn local_community() -> Actor {
    Actor {
        key: ActorKey::Community(CommunityId(7)),
        id: iri(COMMUNITY),
        inbox: iri("https://home.example/c/rust/inbox"),
        shared_inbox: Some(iri("https://home.example/inbox")),
        local: true,
    }
}

fn remote_person(shared_inbox: Option<&str>) -> Actor {
    Actor {
        key: ActorKey::Person(PersonId(11)),
        id: iri(PERSON),
        inbox: iri("https://far.example/u/bob/inbox"),
        shared_inbox: shared_inbox.map(iri),
        local: false,
    }
}

fn follow() -> Follow {
    Follow {
        id: iri("https://far.example/activities/follow/5"),
        actor: iri(PERSON),
        to: Some(iri(COMMUNITY)),
        object: iri(COMMUNITY),
    }
}

fn instance(shared_inbox: Option<&str>) -> Context {
    let mut ctx = Context::new(ORIGIN);
    ctx.actors.register(local_community());
    ctx.actors.register(remote_person(shared_inbox));
    ctx
}

#[test]
fn sent_accept_answers_the_follow() {
    let mut ctx = instance(Some("https://far.example/inbox"));
    assert_eq!(AcceptFollow::send_with_token(follow(), &mut ctx, "t1"), Ok(()));
    assert_eq!(ctx.outbox.len(), 1);
    let delivery = &ctx.outbox[0];
    assert_eq!(delivery.activity.actor.as_str(), COMMUNITY);
    assert_eq!(delivery.activity.to.as_ref().map(Iri::as_str), Some(PERSON));
    assert_eq!(
        delivery.activity.id.as_str(),
        "https://home.example/activities/accept/t1"
    );
    let inner = &delivery.activity.object;
    assert_eq!(inner.id.as_str(), "https://far.example/activities/follow/5");
    assert_eq!(inner.actor.as_str(), PERSON);
    assert_eq!(inner.object.as_str(), COMMUNITY);
    assert_eq!(inner.to.as_ref().map(Iri::as_str), Some(COMMUNITY));
    assert_eq!(delivery.sender.as_str(), COMMUNITY);
    let inboxes: Vec<&str> = delivery.inboxes.iter().map(Iri::as_str).collect();
    assert_eq!(inboxes, vec!["https://far.example/inbox"]);
}

#[test]
fn delivery_goes_to_own_inbox_without_a_shared_one() {
    let mut ctx = instance(None);
    assert_eq!(AcceptFollow::send_with_token(follow(), &mut ctx, "t2"), Ok(()));
    let inboxes: Vec<&str> = ctx.outbox[0].inboxes.iter().map(Iri::as_str).collect();
    assert_eq!(inboxes, vec!["https://far.example/u/bob/inbox"]);
}

#[test]
fn shared_inbox_is_preferred() {
    assert_eq!(
        remote_person(Some("https://far.example/inbox"))
            .shared_inbox_or_inbox()
            .as_str(),
        "https://far.example/inbox"
    );
    assert_eq!(
        remote_person(None).shared_inbox_or_inbox().as_str(),
        "https://far.example/u/bob/inbox"
    );
    let p = remote_person(None);
    assert_eq!(p.id().as_str(), PERSON);
    assert_eq!(p.inbox().as_str(), "https://far.example/u/bob/inbox");
    assert!(p.shared_inbox().is_none());
}

#[test]
fn send_needs_a_local_target() {
    let mut ctx = Context::new(ORIGIN);
    let mut community = local_community();
    community.local = false;
    ctx.actors.register(community);
    ctx.actors.register(remote_person(None));
    assert_eq!(
        AcceptFollow::send_with_token(follow(), &mut ctx, "t3"),
        Err(AcceptError::Dereference)
    );
    assert!(ctx.outbox.is_empty());
}

#[test]
fn send_needs_a_follower_that_resolves() {
    let mut ctx = Context::new(ORIGIN);
    ctx.actors.register(local_community());
    assert_eq!(
        AcceptFollow::send_with_token(follow(), &mut ctx, "t4"),
        Err(AcceptError::Dereference)
    );
    assert!(ctx.outbox.is_empty());
}

#[test]
fn send_fails_where_origin_is_no_url() {
    let mut ctx = Context::new("not an origin");
    ctx.actors.register(local_community());
    ctx.actors.register(remote_person(None));
    assert_eq!(
        AcceptFollow::send_with_token(follow(), &mut ctx, "t5"),
        Err(AcceptError::InvalidIdentifier)
    );
    assert!(ctx.outbox.is_empty());
}

#[test]
fn send_draws_a_new_identifier_each_time() {
    let mut ctx = instance(None);
    assert_eq!(AcceptFollow::send(follow(), &mut ctx), Ok(()));
    assert_eq!(AcceptFollow::send(follow(), &mut ctx), Ok(()));
    assert_eq!(ctx.outbox.len(), 2);
    let first = ctx.outbox[0].activity.id.as_str();
    let second = ctx.outbox[1].activity.id.as_str();
    assert!(first.starts_with("https://home.example/activities/accept/"));
    assert!(second.starts_with("https://home.example/activities/accept/"));
    assert_ne!(first, second);
    assert_eq!(ctx.outbox[1].activity.actor.as_str(), COMMUNITY);
}

#[test]
fn prepare_builds_the_delivery_from_resolved_actors() {
    let delivery = AcceptFollow::prepare(
        follow(),
        Some(local_community()),
        Some(remote_person(None)),
        ORIGIN,
        "t6",
    )
    .unwrap();
    assert_eq!(
        delivery.activity.id.as_str(),
        "https://home.example/activities/accept/t6"
    );
    assert_eq!(delivery.activity.actor.as_str(), COMMUNITY);
    assert_eq!(
        AcceptFollow::prepare(follow(), None, Some(remote_person(None)), ORIGIN, "t")
            .unwrap_err(),
        AcceptError::Dereference
    );
    assert_eq!(
        AcceptFollow::prepare(follow(), Some(local_community()), None, ORIGIN, "t").unwrap_err(),
        AcceptError::Dereference
    );
    assert_eq!(
        AcceptFollow::prepare(
            follow(),
            Some(local_community()),
            Some(local_community()),
            ORIGIN,
            "t"
        )
        .unwrap_err(),
        AcceptError::Dereference
    );
}

#[test]
fn build_keeps_the_follow() {
    let accept = AcceptFollow::build(
        follow(),
        &local_community(),
        &remote_person(None),
        iri("https://home.example/activities/accept/77"),
    );
    assert_eq!(accept.id.as_str(), "https://home.example/activities/accept/77");
    assert_eq!(accept.actor.as_str(), COMMUNITY);
    assert_eq!(accept.to.as_ref().map(Iri::as_str), Some(PERSON));
    assert_eq!(accept.object.id.as_str(), follow().id.as_str());
    let copy = accept.clone();
    assert_eq!(copy.object.actor.as_str(), PERSON);
}

#[test]
fn identifier_is_origin_kind_and_token() {
    assert_eq!(
        activity_id_from_token(ActivityKind::Accept, "https://home.example", "abc")
            .unwrap()
            .as_str(),
        "https://home.example/activities/accept/abc"
    );
    assert_eq!(
        activity_id_from_token(ActivityKind::Follow, "http://localhost:8536", "0-1")
            .unwrap()
            .as_str(),
        "http://localhost:8536/activities/follow/0-1"
    );
    assert_eq!(ActivityKind::Accept.tag(), "accept");
    assert_eq!(ActivityKind::Follow.tag(), "follow");
}

#[test]
fn identifier_is_read_as_a_url() {
    assert_eq!(
        activity_id_from_token(ActivityKind::Accept, "HTTPS://Home.Example", "a b")
            .unwrap()
            .as_str(),
        "https://home.example/activities/accept/a%20b"
    );
    assert_eq!(
        activity_id_from_token(ActivityKind::Accept, "home.example", "abc").unwrap_err(),
        AcceptError::InvalidIdentifier
    );
    assert_eq!(
        activity_id_from_token(ActivityKind::Accept, "", "abc").unwrap_err(),
        AcceptError::InvalidIdentifier
    );
}

#[test]
fn generated_identifiers_differ() {
    let a = generate_activity_id(ActivityKind::Accept, ORIGIN).unwrap();
    let b = generate_activity_id(ActivityKind::Accept, ORIGIN).unwrap();
    assert!(a.as_str().starts_with("https://home.example/activities/accept/"));
    assert!(a.as_str().len() > "https://home.example/activities/accept/".len());
    assert!(!a.same_as(&b));
    assert_eq!(
        generate_activity_id(ActivityKind::Accept, "nowhere").unwrap_err(),
        AcceptError::InvalidIdentifier
    );
}

#[test]
fn urls_are_kept_as_the_parser_writes_them() {
    let parsed = Iri::parse("HTTP://Example.COM:80/a/../b?x=1#f").unwrap();
    assert_eq!(parsed.as_str(), "http://example.com/b?x=1#f");
    assert_eq!(
        parsed.as_str(),
        url::Url::parse("HTTP://Example.COM:80/a/../b?x=1#f").unwrap().as_str()
    );
    assert_eq!(Iri::parse("https://example.com").unwrap().as_str(), "https://example.com/");
    assert_eq!(Iri::parse("/relative/path").unwrap_err(), InvalidUrl);
    assert_eq!(Iri::parse("").unwrap_err(), InvalidUrl);
    assert_eq!(Iri::parse("https://").unwrap_err(), InvalidUrl);
}

#[test]
fn same_url_in_two_spellings_is_one_identifier() {
    let a = iri("https://example.com/c/rust");
    let b = iri("HTTPS://EXAMPLE.com:443/c/rust");
    let c = iri("https://example.com/c/Rust");
    assert!(a.same_as(&b));
    assert!(!a.same_as(&c));
    assert!(a.clone().same_as(&a));
}

#[test]
fn directory_resolves_what_was_registered() {
    let mut actors = ActorDirectory::new();
    assert!(actors.resolve(&iri(COMMUNITY)).is_none());
    actors.register(local_community());
    actors.register(remote_person(None));
    let found = actors.resolve(&iri(COMMUNITY)).unwrap();
    assert_eq!(found.key, ActorKey::Community(CommunityId(7)));
    assert_eq!(found.id.as_str(), COMMUNITY);
    assert!(actors.resolve_local(&iri(COMMUNITY)).is_some());
    assert!(actors.resolve(&iri(PERSON)).is_some());
    assert!(actors.resolve_local(&iri(PERSON)).is_none());
    assert!(actors.resolve(&iri("https://far.example/u/carol")).is_none());
}

#[test]
fn later_registration_replaces_the_earlier() {
    let mut actors = ActorDirectory::new();
    actors.register(remote_person(None));
    actors.register(remote_person(Some("https://far.example/inbox")));
    let found = actors.resolve(&iri(PERSON)).unwrap();
    assert_eq!(
        found.shared_inbox.as_ref().map(Iri::as_str),
        Some("https://far.example/inbox")
    );
}
