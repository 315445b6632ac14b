//! Why an operation of the handshake did not go through.

use vstd::prelude::*;

verus! {

/// The structural rule that an activity breaks.
#[derive(Clone, Copy, Debug, PartialEq, Eq, Structural)]
pub enum Invariant {
    /// The actor of an Accept is not the object of the Follow it embeds.
    ActorIsFollowObject,
    /// The recipient of an Accept is not the actor of the Follow it embeds.
    RecipientIsFollowActor,
    /// The recipient of a Follow is not its object.
    FollowRecipientIsObject,
}

/// Failures of sending, verifying or receiving an Accept.
#[derive(Clone, Copy, Debug, PartialEq, Eq, Structural)]
pub enum AcceptError {
    /// A structural rule is broken; the activity is rejected for good.
    Verification(Invariant),
    /// An actor could not be resolved.
    Dereference,
    /// No follow relationship is on file for the community and the person.
    NoPendingFollow,
    /// The identifier of a new activity is not a URL.
    InvalidIdentifier,
    /// The storage engine or the network failed.
    Storage,
}

} // verus!
