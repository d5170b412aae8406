//! Typed CRUD over the content table, which is kept ordered by creation
//! time, newest first.

use vstd::prelude::*;

use crate::clock::now_millis;
use crate::ids::fresh_uuid;
use crate::model::{view_opt_string, Content, ContentV, CreateContentDto};
use crate::store::{sorted_desc, Store, StoreError};
use crate::table::{
    contains_id, find_row, lemma_find_row_at, lemma_find_row_none, lemma_insert_unique,
    lemma_remove_id, Row,
};

verus! {

/// Selects the rows posted into the given community.
pub open spec fn by_community(community_id: u128) -> spec_fn(ContentV) -> bool {
    |c: ContentV| c.community_id == community_id
}

/// The content row a create request denotes, given the assigned
/// identifier and creation instant: an absent sender falls back to the
/// all-zero sentinel identifier and the sentinel external identifier, an
/// absent wallet address to the empty string.
pub open spec fn created_content(dto: CreateContentDto, id: u128, now: i64) -> ContentV {
    ContentV {
        id,
        content: dto.content@,
        created_at: now,
        sender_id: match dto.sender_id {
            Option::Some(s) => s,
            Option::None => 0,
        },
        sender_xid: match dto.sender_xid {
            Option::Some(s) => s@,
            Option::None => "default-user"@,
        },
        image_url: view_opt_string(dto.image_url),
        community_id: dto.community_id,
        wallet_address: match dto.wallet_address {
            Option::Some(s) => s@,
            Option::None => Seq::<char>::empty(),
        },
    }
}

/// Filtering an ordered table leaves an ordered listing.
pub proof fn lemma_filter_sorted(s: Seq<ContentV>, p: spec_fn(ContentV) -> bool)
    requires
        sorted_desc(s),
    ensures
        sorted_desc(s.filter(p)),
    decreases s.len(),
{
    reveal(Seq::filter);
    if s.len() > 0 {
        let d = s.drop_last();
        assert(sorted_desc(d));
        lemma_filter_sorted(d, p);
        if p(s.last()) {
            let f = d.filter(p);
            assert forall|i: int, j: int|
                0 <= i <= j < f.push(s.last()).len() implies #[trigger] f.push(s.last())[
                i
            ].created_at >= #[trigger] f.push(s.last())[j].created_at by {
                if j < f.len() {
                    assert(f.push(s.last())[i] == f[i] && f.push(s.last())[j] == f[j]);
                } else if i < f.len() {
                    assert(f.contains(f[i]));
                    d.lemma_filter_contains_rev(p, f[i]);
                    let k = choose|k: int| 0 <= k < d.len() && d[k] == f[i];
                    assert(s[k].created_at >= s.last().created_at);
                }
            }
        }
    }
}

pub struct ContentRepository;

impl ContentRepository {
    /// All content records, newest first.
    pub fn find_all(store: &Store) -> (r: Vec<Content>)
        requires
            store.wf(),
        ensures
            r@.map_values(|c: Content| c@) == store.contents_view(),
            sorted_desc(r@.map_values(|c: Content| c@)),
    {
        let mut out: Vec<Content> = Vec::new();
        let n = store.contents.len();
        let mut i: usize = 0;
        while i < n
            invariant
                n == store.contents.len(),
                i <= n,
                out@.len() == i,
                forall|k: int| 0 <= k < i ==> #[trigger] out@[k]@ == store.contents_view()[k],
            decreases n - i,
        {
            out.push(store.contents[i].clone());
            i += 1;
        }
        assert(out@.map_values(|c: Content| c@) =~= store.contents_view());
        out
    }

    /// The content with this identifier, if any.
    pub fn find_by_id(store: &Store, id: u128) -> (r: Option<Content>)
        ensures
            match find_row(store.contents_view(), id) {
                Option::Some(row) => r is Some && r.unwrap()@ == row,
                Option::None => r is None,
            },
    {
        let n = store.contents.len();
        let mut i: usize = 0;
        while i < n
            invariant
                n == store.contents.len(),
                i <= n,
                forall|k: int| 0 <= k < i ==> #[trigger] store.contents_view()[k].row_id() != id,
            decreases n - i,
        {
            if store.contents[i].id == id {
                proof {
                    lemma_find_row_at(store.contents_view(), id, i as int);
                }
                return Some(store.contents[i].clone());
            }
            i += 1;
        }
        proof {
            lemma_find_row_none(store.contents_view(), id);
        }
        None
    }

    /// The content posted into this community, and nothing else, newest
    /// first.
    pub fn find_by_community_id(store: &Store, community_id: u128) -> (r: Vec<Content>)
        requires
            store.wf(),
        ensures
            r@.map_values(|c: Content| c@) == store.contents_view().filter(
                by_community(community_id),
            ),
            sorted_desc(r@.map_values(|c: Content| c@)),
    {
        let ghost s = store.contents_view();
        let ghost p = by_community(community_id);
        let mut out: Vec<Content> = Vec::new();
        let n = store.contents.len();
        let mut i: usize = 0;
        proof {
            reveal(Seq::filter);
            assert(s.take(0).filter(p) =~= Seq::<ContentV>::empty());
        }
        while i < n
            invariant
                s == store.contents_view(),
                p == by_community(community_id),
                n == store.contents.len(),
                i <= n,
                out@.map_values(|c: Content| c@) == s.take(i as int).filter(p),
            decreases n - i,
        {
            proof {
                reveal(Seq::filter);
                assert(s.take(i + 1).drop_last() =~= s.take(i as int));
                assert(s.take(i + 1).last() == s[i as int]);
            }
            if store.contents[i].community_id == community_id {
                out.push(store.contents[i].clone());
                assert(out@.map_values(|c: Content| c@) =~= s.take(i + 1).filter(p));
            } else {
                assert(out@.map_values(|c: Content| c@) =~= s.take(i + 1).filter(p));
            }
            i += 1;
        }
        proof {
            assert(s.take(n as int) =~= s);
            lemma_filter_sorted(s, p);
        }
        out
    }

    /// Inserts a content row with the given identifier and creation
    /// instant, at its ordered position: after every row created at or
    /// after that instant, before every older one. The owning community
    /// is a foreign reference the store enforces: a dangling one is
    /// refused with a foreign-key error and no row is kept. Otherwise the
    /// insert succeeds exactly when the identifier is not already in the
    /// table.
    pub fn insert(store: &mut Store, dto: CreateContentDto, id: u128, now: i64) -> (r: Result<
        Content,
        StoreError,
    >)
        requires
            old(store).wf(),
        ensures
            final(store).wf(),
            final(store).users_view() == old(store).users_view(),
            final(store).communities_view() == old(store).communities_view(),
            match r {
                Result::Ok(c) => {
                    &&& contains_id(old(store).communities_view(), dto.community_id)
                    &&& !contains_id(old(store).contents_view(), id)
                    &&& c@ == created_content(dto, id, now)
                    &&& exists|i: int|
                        0 <= i <= old(store).contents_view().len() && final(store).contents_view()
                            == #[trigger] old(store).contents_view().insert(i, c@)
                    &&& find_row(final(store).contents_view(), id) == Some(c@)
                    &&& forall|other: u128|
                        other != id ==> #[trigger] find_row(final(store).contents_view(), other)
                            == find_row(old(store).contents_view(), other)
                },
                Result::Err(e) => {
                    &&& *final(store) == *old(store)
                    &&& if contains_id(old(store).communities_view(), dto.community_id) {
                        e == StoreError::Conflict && contains_id(old(store).contents_view(), id)
                    } else {
                        e == StoreError::ForeignKey
                    }
                },
            },
    {
        let ghost s = old(store).contents_view();
        if !Self::community_present(store, dto.community_id) {
            return Err(StoreError::ForeignKey);
        }
        if Self::id_present(store, id) {
            return Err(StoreError::Conflict);
        }
        let row = Content {
            id,
            content: dto.content,
            created_at: now,
            sender_id: match dto.sender_id {
                Option::Some(v) => v,
                Option::None => 0,
            },
            sender_xid: match dto.sender_xid {
                Option::Some(v) => v,
                Option::None => String::from_str("default-user"),
            },
            image_url: dto.image_url,
            community_id: dto.community_id,
            wallet_address: match dto.wallet_address {
                Option::Some(v) => v,
                Option::None => String::new(),
            },
        };
        let result = row.clone();
        proof {
            assert(row@ == created_content(dto, id, now));
        }
        let n = store.contents.len();
        let mut pos: usize = 0;
        while pos < n && store.contents[pos].created_at >= now
            invariant
                s == store.contents_view(),
                n == store.contents.len(),
                pos <= n,
                forall|k: int| 0 <= k < pos ==> #[trigger] s[k].created_at >= now,
            decreases n - pos,
        {
            pos += 1;
        }
        assert(pos < n ==> s[pos as int].created_at < now);
        proof {
            lemma_insert_unique(s, row@, pos as int);
        }
        store.contents.insert(pos, row);
        proof {
            let t = store.contents_view();
            assert(t =~= s.insert(pos as int, created_content(dto, id, now)));
            s.insert_ensures(pos as int, created_content(dto, id, now));
            assert forall|i: int, j: int|
                0 <= i <= j < t.len() implies #[trigger] t[i].created_at
                >= #[trigger] t[j].created_at by {
                let si = if i < pos { i } else { i - 1 };
                let sj = if j < pos { j } else { j - 1 };
                if i == j {
                } else if i == pos as int {
                    assert(t[j] == s[sj] && sj >= pos);
                    assert(s[pos as int].created_at >= s[sj].created_at);
                } else if j == pos as int {
                    assert(t[i] == s[si] && si < pos);
                } else {
                    assert(t[i] == s[si] && t[j] == s[sj]);
                }
            }
        }
        Ok(result)
    }

    /// Creates a content row: a fresh random identifier and the current
    /// instant as creation time, placed at its ordered position. A
    /// dangling community reference is refused by the store's foreign-key
    /// constraint, with no row kept; otherwise the create fails with a
    /// conflict exactly when the drawn identifier collides with an
    /// existing row — so never on an empty table.
    pub fn create(store: &mut Store, dto: CreateContentDto) -> (r: Result<Content, StoreError>)
        requires
            old(store).wf(),
        ensures
            final(store).wf(),
            final(store).users_view() == old(store).users_view(),
            final(store).communities_view() == old(store).communities_view(),
            match r {
                Result::Ok(c) => {
                    &&& contains_id(old(store).communities_view(), dto.community_id)
                    &&& !contains_id(old(store).contents_view(), c@.id)
                    &&& exists|id: u128, now: i64| c@ == #[trigger] created_content(dto, id, now)
                    &&& c@.content == dto.content@
                    &&& c@.community_id == dto.community_id
                    &&& c@.image_url == view_opt_string(dto.image_url)
                    &&& (dto.sender_id matches Option::Some(v) ==> c@.sender_id == v)
                    &&& (dto.sender_xid matches Option::Some(v) ==> c@.sender_xid == v@)
                    &&& (dto.wallet_address matches Option::Some(v) ==> c@.wallet_address == v@)
                    &&& exists|i: int|
                        0 <= i <= old(store).contents_view().len() && final(store).contents_view()
                            == #[trigger] old(store).contents_view().insert(i, c@)
                    &&& find_row(final(store).contents_view(), c@.id) == Some(c@)
                    &&& forall|other: u128|
                        other != c@.id ==> #[trigger] find_row(final(store).contents_view(), other)
                            == find_row(old(store).contents_view(), other)
                },
                Result::Err(e) => {
                    &&& *final(store) == *old(store)
                    &&& if contains_id(old(store).communities_view(), dto.community_id) {
                        e == StoreError::Conflict && old(store).contents_view().len() > 0
                    } else {
                        e == StoreError::ForeignKey
                    }
                },
            },
    {
        let id = fresh_uuid();
        let now = now_millis();
        Self::insert(store, dto, id, now)
    }

    /// Deletes the content with this identifier; reports whether a row
    /// was affected.
    pub fn delete(store: &mut Store, id: u128) -> (r: bool)
        requires
            old(store).wf(),
        ensures
            final(store).wf(),
            final(store).users_view() == old(store).users_view(),
            final(store).communities_view() == old(store).communities_view(),
            r == contains_id(old(store).contents_view(), id),
            !r ==> *final(store) == *old(store),
            r ==> exists|i: int|
                0 <= i < old(store).contents_view().len() && old(store).contents_view()[i].id == id
                    && final(store).contents_view() == old(store).contents_view().remove(i),
            !contains_id(final(store).contents_view(), id),
    {
        let ghost s = old(store).contents_view();
        let n = store.contents.len();
        let mut i: usize = 0;
        while i < n
            invariant
                *store == *old(store),
                old(store).wf(),
                s == store.contents_view(),
                n == store.contents.len(),
                i <= n,
                forall|k: int| 0 <= k < i ==> #[trigger] s[k].row_id() != id,
            decreases n - i,
        {
            if store.contents[i].id == id {
                assert(s[i as int].row_id() == id);
                store.contents.remove(i);
                proof {
                    let t = store.contents_view();
                    assert(t =~= s.remove(i as int));
                    lemma_remove_id(s, id, i as int);
                    s.remove_ensures(i as int);
                    assert forall|p: int, q: int|
                        0 <= p <= q < t.len() implies #[trigger] t[p].created_at
                        >= #[trigger] t[q].created_at by {
                        let sp = if p < i { p } else { p + 1 };
                        let sq = if q < i { q } else { q + 1 };
                        assert(t[p] == s[sp] && t[q] == s[sq]);
                    }
                }
                return true;
            }
            i += 1;
        }
        false
    }

    /// Whether the communities table holds this identifier (the
    /// foreign-key check of a content insert).
    fn community_present(store: &Store, id: u128) -> (r: bool)
        ensures
            r == contains_id(store.communities_view(), id),
    {
        let n = store.communities.len();
        let mut i: usize = 0;
        while i < n
            invariant
                n == store.communities.len(),
                i <= n,
                forall|k: int|
                    0 <= k < i ==> #[trigger] store.communities_view()[k].row_id() != id,
            decreases n - i,
        {
            if store.communities[i].id == id {
                assert(store.communities_view()[i as int].row_id() == id);
                return true;
            }
            i += 1;
        }
        false
    }

    /// Whether some row carries this identifier.
    fn id_present(store: &Store, id: u128) -> (r: bool)
        ensures
            r == contains_id(store.contents_view(), id),
    {
        let n = store.contents.len();
        let mut i: usize = 0;
        while i < n
            invariant
                n == store.contents.len(),
                i <= n,
                forall|k: int| 0 <= k < i ==> #[trigger] store.contents_view()[k].row_id() != id,
            decreases n - i,
        {
            if store.contents[i].id == id {
                assert(store.contents_view()[i as int].row_id() == id);
                return true;
            }
            i += 1;
        }
        false
    }
}

} // verus!
