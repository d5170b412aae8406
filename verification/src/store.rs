//! The entity store: one in-memory table per entity, with the
//! well-formedness invariant every operation preserves.
//!
//! The store reports "not found" as an empty result, never as an error;
//! its only failure is a constraint conflict (duplicate identifier, or a
//! duplicate email in the users table).

use vstd::prelude::*;

use crate::ids::uuid_str;
use crate::model::{CommunityV, ContentV, UserRowV};
use crate::model::{Community, Content, UserRow};
use crate::table::{ids_unique, Row};

verus! {

/// Failure of a store write: a constraint was violated.
#[derive(Clone, Copy, PartialEq, Eq, Structural, Debug)]
pub enum StoreError {
    /// A uniqueness constraint was violated.
    Conflict,
    /// A foreign-key constraint was violated: the referenced row does
    /// not exist.
    ForeignKey,
}

impl Row for UserRowV {
    open spec fn row_id(&self) -> u128 {
        self.user.id
    }
}

impl Row for CommunityV {
    open spec fn row_id(&self) -> u128 {
        self.id
    }
}

impl Row for ContentV {
    open spec fn row_id(&self) -> u128 {
        self.id
    }
}

/// Some user row carries this email.
pub open spec fn email_taken(s: Seq<UserRowV>, email: Seq<char>) -> bool {
    exists|i: int| 0 <= i < s.len() && #[trigger] s[i].user.email == email
}

/// No two user rows share an email.
pub open spec fn emails_unique(s: Seq<UserRowV>) -> bool {
    forall|i: int, j: int|
        0 <= i < j < s.len() ==> #[trigger] s[i].user.email != #[trigger] s[j].user.email
}

/// The first user row carrying the email, if any.
pub open spec fn find_user_by_email_spec(s: Seq<UserRowV>, email: Seq<char>) -> Option<UserRowV>
    decreases s.len(),
{
    if s.len() == 0 {
        None
    } else if s[0].user.email == email {
        Some(s[0])
    } else {
        find_user_by_email_spec(s.subrange(1, s.len() as int), email)
    }
}

/// A scan that stopped at position `i` on a matching email has found
/// what `find_user_by_email_spec` denotes.
pub proof fn lemma_find_email_at(s: Seq<UserRowV>, email: Seq<char>, i: int)
    requires
        0 <= i < s.len(),
        forall|k: int| 0 <= k < i ==> #[trigger] s[k].user.email != email,
        s[i].user.email == email,
    ensures
        find_user_by_email_spec(s, email) == Some(s[i]),
    decreases s.len(),
{
    if i > 0 {
        let t = s.subrange(1, s.len() as int);
        assert(forall|k: int| 0 <= k < i - 1 ==> #[trigger] t[k].user.email != email);
        lemma_find_email_at(t, email, i - 1);
    }
}

/// A scan that saw no matching email exhausts `find_user_by_email_spec`.
pub proof fn lemma_find_email_none(s: Seq<UserRowV>, email: Seq<char>)
    requires
        forall|k: int| 0 <= k < s.len() ==> #[trigger] s[k].user.email != email,
    ensures
        find_user_by_email_spec(s, email) is None,
    decreases s.len(),
{
    if s.len() > 0 {
        let t = s.subrange(1, s.len() as int);
        assert(forall|k: int| 0 <= k < t.len() ==> #[trigger] t[k].user.email != email);
        lemma_find_email_none(t, email);
    }
}

/// Every user row derives its external identifier from its internal one.
pub open spec fn xids_derived(s: Seq<UserRowV>) -> bool {
    forall|i: int| 0 <= i < s.len() ==> #[trigger] s[i].user.xid == uuid_str(s[i].user.id)
}

/// Content rows ordered by creation time, newest first.
pub open spec fn sorted_desc(s: Seq<ContentV>) -> bool {
    forall|i: int, j: int|
        0 <= i <= j < s.len() ==> #[trigger] s[i].created_at >= #[trigger] s[j].created_at
}

/// The store: one table per entity.
pub struct Store {
    pub users: Vec<UserRow>,
    pub communities: Vec<Community>,
    pub contents: Vec<Content>,
}

impl Store {
    /// The users table, as a sequence of row views.
    pub open spec fn users_view(&self) -> Seq<UserRowV> {
        self.users@.map_values(|r: UserRow| r@)
    }

    /// The communities table, as a sequence of row views.
    pub open spec fn communities_view(&self) -> Seq<CommunityV> {
        self.communities@.map_values(|r: Community| r@)
    }

    /// The content table, as a sequence of row views.
    pub open spec fn contents_view(&self) -> Seq<ContentV> {
        self.contents@.map_values(|r: Content| r@)
    }

    /// Well-formedness: identifiers unique per table, emails unique,
    /// external user identifiers derived from the internal ones, and the
    /// content table ordered newest first.
    pub open spec fn wf(&self) -> bool {
        &&& ids_unique(self.users_view())
        &&& emails_unique(self.users_view())
        &&& xids_derived(self.users_view())
        &&& ids_unique(self.communities_view())
        &&& ids_unique(self.contents_view())
        &&& sorted_desc(self.contents_view())
    }

    /// An empty store.
    pub fn new() -> (r: Store)
        ensures
            r.wf(),
            r.users_view() =~= Seq::<UserRowV>::empty(),
            r.communities_view() =~= Seq::<CommunityV>::empty(),
            r.contents_view() =~= Seq::<ContentV>::empty(),
    {
        Store { users: Vec::new(), communities: Vec::new(), contents: Vec::new() }
    }
}

} // verus!
