//! Row keys of local storage.

use vstd::prelude::*;

verus! {

/// Key of a community.
#[derive(Clone, Copy, Debug, PartialEq, Eq, Structural)]
pub struct CommunityId(pub i32);

/// Key of a person.
#[derive(Clone, Copy, Debug, PartialEq, Eq, Structural)]
pub struct PersonId(pub i32);

/// Key of the local account of a person.
#[derive(Clone, Copy, Debug, PartialEq, Eq, Structural)]
pub struct LocalUserId(pub i32);

/// Key of a language.
#[derive(Clone, Copy, Debug, PartialEq, Eq, Structural)]
pub struct LanguageId(pub i32);

} // verus!
