//! The Accept half of a federated Follow/Accept handshake.
//!
//! A person on one server asks to follow a community on another by sending a
//! Follow activity; the community's server answers with an Accept. This crate
//! builds that answer, checks one that arrives, and applies it exactly once to
//! the follow relationship it speaks of.
//!
//! Every function here carries a contract that Verus proves. The contracts are
//! stated over the views of the types: a URL is the sequence of characters of
//! its serialization, a table is a map, a queue is a sequence.

pub mod iri;
pub mod error;
pub mod protocol;
pub mod keys;
pub mod ledger;
pub mod follows;
pub mod actor;
pub mod ident;
pub mod tables;
pub mod notify;
pub mod context;
pub mod accept;
pub mod laws;
pub mod flow;
