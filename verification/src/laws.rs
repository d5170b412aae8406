//! The laws of the entity layer, stated over the same table views the
//! service contracts use: what a lookup returns after a create, after a
//! merge update, after a delete, and what a community listing holds.

use vstd::prelude::*;

use crate::content_repository::by_community;
use crate::model::{ContentV, UpdateUserDto, UserRowV};
use crate::store::{email_taken, sorted_desc};
use crate::table::{
    contains_id, find_row, ids_unique, lemma_find_row_at, lemma_find_row_spec,
    lemma_insert_unique, lemma_remove_id, Row,
};
use crate::user_repository::merged_user_row;

verus! {

/// Lookup cannot tell two tables apart that agree on every row except
/// ones carrying a different identifier than the one asked for.
proof fn lemma_find_row_agree<T: Row>(s: Seq<T>, t: Seq<T>, id: u128)
    requires
        s.len() == t.len(),
        forall|k: int|
            0 <= k < s.len() ==> (#[trigger] s[k] == #[trigger] t[k] || (s[k].row_id() != id
                && t[k].row_id() != id)),
    ensures
        find_row(s, id) == find_row(t, id),
    decreases s.len(),
{
    if s.len() > 0 {
        let s1 = s.subrange(1, s.len() as int);
        let t1 = t.subrange(1, t.len() as int);
        assert(forall|k: int|
            0 <= k < s1.len() ==> (#[trigger] s1[k] == #[trigger] t1[k] || (s1[k].row_id() != id
                && t1[k].row_id() != id)));
        lemma_find_row_agree(s1, t1, id);
    }
}

/// Law: a just-created record is what an identifier lookup then
/// returns. Creating appends a row whose identifier was absent; in the
/// resulting table that identifier maps to exactly the appended row, and
/// every other lookup is unchanged.
pub proof fn lemma_create_then_get<T: Row>(s: Seq<T>, row: T)
    requires
        ids_unique(s),
        !contains_id(s, row.row_id()),
    ensures
        find_row(s.push(row), row.row_id()) == Some(row),
        forall|other: u128|
            other != row.row_id() ==> #[trigger] find_row(s.push(row), other) == find_row(
                s,
                other,
            ),
{
    assert(s.push(row) =~= s.insert(s.len() as int, row));
    lemma_insert_unique(s, row, s.len() as int);
}

/// Law: a merge update changes exactly the requested fields. After an
/// update of the row carrying `id` — which replaces it by the merge of
/// its stored value with the request and leaves every other row alone —
/// a lookup of `id` returns exactly that merge, and every other lookup
/// is unchanged.
pub proof fn lemma_update_then_get_user(
    s: Seq<UserRowV>,
    t: Seq<UserRowV>,
    id: u128,
    dto: UpdateUserDto,
)
    requires
        ids_unique(s),
        find_row(s, id) is Some,
        t.len() == s.len(),
        forall|k: int|
            0 <= k < s.len() ==> #[trigger] t[k] == (if s[k].user.id == id {
                merged_user_row(find_row(s, id).unwrap(), dto)
            } else {
                s[k]
            }),
    ensures
        find_row(t, id) == Some(merged_user_row(find_row(s, id).unwrap(), dto)),
        forall|other: u128| other != id ==> #[trigger] find_row(t, other) == find_row(s, other),
{
    lemma_find_row_spec(s, id);
    let row = find_row(s, id).unwrap();
    let i = choose|i: int| 0 <= i < s.len() && s[i] == row && #[trigger] s[i].row_id() == id;
    assert forall|k: int| 0 <= k < i implies #[trigger] t[k].row_id() != id by {
        if s[k].row_id() == id && k != i {
            assert(s[k].row_id() != s[i].row_id());
        }
        assert(t[k] == s[k]);
    }
    assert(t[i] == merged_user_row(row, dto));
    lemma_find_row_at(t, id, i);
    assert forall|other: u128| other != id implies #[trigger] find_row(t, other) == find_row(
        s,
        other,
    ) by {
        assert forall|k: int|
            0 <= k < s.len() implies (#[trigger] s[k] == #[trigger] t[k] || (s[k].row_id() != other
                && t[k].row_id() != other)) by {
            if s[k].user.id == id {
                assert(t[k].row_id() == id);
            }
        }
        lemma_find_row_agree(s, t, other);
    }
}

/// Law: a community merge update changes exactly the requested fields,
/// stated as [`lemma_update_then_get_user`] is for users: after the
/// update, a lookup of the identifier returns the merge of the stored
/// row with the request, and every other lookup is unchanged.
pub proof fn lemma_update_then_get_community(
    s: Seq<crate::model::CommunityV>,
    t: Seq<crate::model::CommunityV>,
    id: u128,
    dto: crate::model::UpdateCommunityDto,
)
    requires
        ids_unique(s),
        find_row(s, id) is Some,
        t.len() == s.len(),
        forall|k: int|
            0 <= k < s.len() ==> #[trigger] t[k] == (if s[k].id == id {
                crate::community_repository::merged_community(find_row(s, id).unwrap(), dto)
            } else {
                s[k]
            }),
    ensures
        find_row(t, id) == Some(
            crate::community_repository::merged_community(find_row(s, id).unwrap(), dto),
        ),
        forall|other: u128| other != id ==> #[trigger] find_row(t, other) == find_row(s, other),
{
    lemma_find_row_spec(s, id);
    let merged = crate::community_repository::merged_community(find_row(s, id).unwrap(), dto);
    let i = choose|i: int| 0 <= i < s.len() && s[i] == find_row(s, id).unwrap() && #[trigger] s[
        i
    ].row_id() == id;
    assert forall|k: int| 0 <= k < i implies #[trigger] t[k].row_id() != id by {
        if s[k].row_id() == id && k != i {
            assert(s[k].row_id() != s[i].row_id());
        }
        assert(t[k] == s[k]);
    }
    assert(t[i] == merged);
    lemma_find_row_at(t, id, i);
    assert forall|other: u128| other != id implies #[trigger] find_row(t, other) == find_row(
        s,
        other,
    ) by {
        assert forall|k: int|
            0 <= k < s.len() implies (#[trigger] s[k] == #[trigger] t[k] || (s[k].row_id() != other
                && t[k].row_id() != other)) by {
            if s[k].id == id {
                assert(t[k].row_id() == id);
            }
        }
        lemma_find_row_agree(s, t, other);
    }
}

/// Law: deletion is idempotent in effect but not in result. Deleting an
/// existing identifier removes the one row carrying it, so the table no
/// longer contains the identifier and an immediate second delete of the
/// same identifier finds no row to affect.
pub proof fn lemma_delete_idempotent_effect<T: Row>(s: Seq<T>, id: u128, i: int)
    requires
        ids_unique(s),
        0 <= i < s.len(),
        s[i].row_id() == id,
    ensures
        contains_id(s, id),
        !contains_id(s.remove(i), id),
{
    lemma_remove_id(s, id, i);
}

/// Law: two creates of the same email cannot both succeed. A successful
/// create requires the email to be unregistered and leaves it
/// registered, so a second create of that email meets exactly the
/// condition under which create reports the email conflict.
pub proof fn lemma_email_conflict(s: Seq<UserRowV>, row: UserRowV)
    requires
        !email_taken(s, row.user.email),
    ensures
        email_taken(s.push(row), row.user.email),
{
    let t = s.push(row);
    assert(t[s.len() as int].user.email == row.user.email);
}

/// Law: the listing of a community holds exactly the content rows whose
/// community identifier matches — every listed row matches, every
/// matching row is listed — and stays ordered by creation time, newest
/// first.
pub proof fn lemma_list_by_community(s: Seq<ContentV>, cid: u128)
    requires
        sorted_desc(s),
    ensures
        forall|k: int|
            0 <= k < s.filter(by_community(cid)).len() ==> #[trigger] s.filter(by_community(cid))[
                k
            ].community_id == cid,
        forall|k: int|
            0 <= k < s.len() && s[k].community_id == cid ==> #[trigger] s.filter(
                by_community(cid),
            ).contains(s[k]),
        sorted_desc(s.filter(by_community(cid))),
{
    let p = by_community(cid);
    assert forall|k: int|
        0 <= k < s.filter(p).len() implies #[trigger] s.filter(p)[k].community_id == cid by {
        Seq::lemma_filter_pred(s, p, k);
    }
    assert forall|k: int|
        0 <= k < s.len() && s[k].community_id == cid implies #[trigger] s.filter(p).contains(
        s[k],
    ) by {
        Seq::lemma_filter_contains(s, p, k);
    }
    crate::content_repository::lemma_filter_sorted(s, p);
}

} // verus!
