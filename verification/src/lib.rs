//! Core logic for coordinating accounts across independently operated chains
//! that are connected by an asynchronous, possibly-failing packet-relaying
//! fabric.
//!
//! The crate models three pieces of logic and proves their contracts:
//! an account-identity resolver that derives the identity of an account
//! living zero or more hops away from its origin chain, a registration
//! protocol that idempotently establishes remote accounts (check the
//! registry, conditionally create, wait for relay completion, re-verify),
//! and a dispatch-envelope builder that nests a payload so that a chain
//! several hops away executes it.  All chain I/O (queries, transaction
//! broadcasting, relaying) is left to the surrounding program, which feeds
//! observed results back in as plain values.

pub mod chains;
pub mod envelope;
pub mod errors;
pub mod identity;
pub mod packets;
pub mod protocol;
pub mod registry;
