//! Identifiers for new activities.
//!
//! A new activity gets a URL of its own under the local origin: the origin,
//! the path segment `activities`, a tag for the kind of activity, and a token
//! that no earlier activity had.

use crate::error::AcceptError;
use crate::iri::{url_serialization, Iri};
use uuid::Uuid;
use vstd::prelude::*;
use vstd::string::*;

verus! {

/// The kind of an activity.
#[derive(Clone, Copy, Debug, PartialEq, Eq, Structural)]
pub enum ActivityKind {
    Follow,
    Accept,
}

impl ActivityKind {
    /// The path segment that stands for the kind.
    pub open spec fn tag_spec(self) -> Seq<char> {
        match self {
            ActivityKind::Follow => "follow"@,
            ActivityKind::Accept => "accept"@,
        }
    }

    /// The path segment that stands for the kind.
    pub fn tag(self) -> (r: &'static str)
        ensures
            r@ == self.tag_spec(),
    {
        match self {
            ActivityKind::Follow => "follow",
            ActivityKind::Accept => "accept",
        }
    }
}

/// The text of an identifier before it is read as a URL.
pub open spec fn activity_id_text(kind: ActivityKind, origin: Seq<char>, token: Seq<char>) -> Seq<
    char,
> {
    origin + "/activities/"@ + kind.tag_spec() + "/"@ + token
}

/// The identifier that comes of `kind`, `origin` and `token`: the text read as
/// a URL, or a failure where it is none.
pub open spec fn activity_id_spec(kind: ActivityKind, origin: Seq<char>, token: Seq<char>) -> Result<
    Seq<char>,
    AcceptError,
> {
    match url_serialization(activity_id_text(kind, origin, token)) {
        Some(text) => Ok(text),
        None => Err(AcceptError::InvalidIdentifier),
    }
}

/// The text of an identifier, or the failure to make one.
pub open spec fn id_text(id: Result<Iri, AcceptError>) -> Result<Seq<char>, AcceptError> {
    match id {
        Ok(iri) => Ok(iri@),
        Err(e) => Err(e),
    }
}

/// Two tokens give two texts.
pub proof fn lemma_token_decides_text(
    kind: ActivityKind,
    origin: Seq<char>,
    token: Seq<char>,
    other: Seq<char>,
)
    requires
        activity_id_text(kind, origin, token) == activity_id_text(kind, origin, other),
    ensures
        token == other,
{
    let prefix = origin + "/activities/"@ + kind.tag_spec() + "/"@;
    let n = prefix.len() as int;
    let a = prefix + token;
    let b = prefix + other;
    assert(a.subrange(n, a.len() as int) =~= token);
    assert(b.subrange(n, b.len() as int) =~= other);
}

/// Makes the identifier of a new activity of `kind` under `origin` from a
/// token that the caller has not used before.
pub fn activity_id_from_token(kind: ActivityKind, origin: &str, token: &str) -> (r: Result<
    Iri,
    AcceptError,
>)
    ensures
        id_text(r) == activity_id_spec(kind, origin@, token@),
{
    let mut text = String::from_str(origin);
    text.append("/activities/");
    text.append(kind.tag());
    text.append("/");
    text.append(token);
    match Iri::parse(text.as_str()) {
        Ok(iri) => Ok(iri),
        Err(_) => Err(AcceptError::InvalidIdentifier),
    }
}

/// Calls `uuid::Uuid::new_v4` and writes the identifier out as text. The
/// outcome is random, so nothing is claimed of it.
#[verifier::external_body]
pub(crate) fn random_token() -> String {
    Uuid::new_v4().to_string()
}

/// Makes the identifier of a new activity of `kind` under `origin` with a
/// random token.
pub fn generate_activity_id(kind: ActivityKind, origin: &str) -> (r: Result<Iri, AcceptError>)
    ensures
        exists|token: Seq<char>| id_text(r) == activity_id_spec(kind, origin@, token),
{
    let token = random_token();
    activity_id_from_token(kind, origin, token.as_str())
}

} // verus!
