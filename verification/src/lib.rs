//! Verified core of a small community/content backend.
//!
//! The crate models the entity layer of the system: an in-memory entity
//! store with one table per entity, an identity resolver that turns a
//! caller-supplied principal string into the canonical identity of a user,
//! and one service per entity (users, communities, content) that applies
//! default values, merge-on-non-null updates and simple invariants such as
//! email uniqueness. The HTTP boundary around it is ordinary unverified
//! glue and lives outside this crate.

use vstd::prelude::*;

pub mod clock;
pub mod community_repository;
pub mod community_service;
pub mod content_repository;
pub mod content_service;
pub mod handler;
pub mod identity;
pub mod ids;
pub mod laws;
pub mod model;
pub mod store;
pub mod table;
pub mod user_repository;
pub mod user_service;

verus! {

/// Sum of two counters, guarded against overflow.
pub fn add3(left: u64, right: u64) -> (r: u64)
    requires
        left + right <= u64::MAX,
    ensures
        r == left + right,
{
    left + right
}

/// Body of the root route of the HTTP boundary.
pub fn hello_world() -> (r: &'static str)
    ensures
        r@ == "Hello, World!"@,
{
    "Hello, World!"
}

} // verus!
