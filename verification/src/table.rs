//! Spec-level view of one table: rows keyed by a unique 128-bit
//! identifier, with first-match lookup and the lemmas that connect a
//! linear scan to it.

use vstd::prelude::*;

verus! {

/// A table row owning a numeric identifier.
pub trait Row {
    spec fn row_id(&self) -> u128;
}

/// No two rows share an identifier.
pub open spec fn ids_unique<T: Row>(s: Seq<T>) -> bool {
    forall|i: int, j: int|
        0 <= i < j < s.len() ==> #[trigger] s[i].row_id() != #[trigger] s[j].row_id()
}

/// Some row carries this identifier.
pub open spec fn contains_id<T: Row>(s: Seq<T>, id: u128) -> bool {
    exists|i: int| 0 <= i < s.len() && #[trigger] s[i].row_id() == id
}

/// The first row carrying the identifier, if any.
pub open spec fn find_row<T: Row>(s: Seq<T>, id: u128) -> Option<T>
    decreases s.len(),
{
    if s.len() == 0 {
        None
    } else if s[0].row_id() == id {
        Some(s[0])
    } else {
        find_row(s.subrange(1, s.len() as int), id)
    }
}

/// A scan that stopped at position `i` on a matching row has found what
/// `find_row` denotes.
pub proof fn lemma_find_row_at<T: Row>(s: Seq<T>, id: u128, i: int)
    requires
        0 <= i < s.len(),
        forall|k: int| 0 <= k < i ==> #[trigger] s[k].row_id() != id,
        s[i].row_id() == id,
    ensures
        find_row(s, id) == Some(s[i]),
    decreases s.len(),
{
    if i == 0 {
    } else {
        let t = s.subrange(1, s.len() as int);
        assert(forall|k: int| 0 <= k < i - 1 ==> #[trigger] t[k].row_id() != id);
        lemma_find_row_at(t, id, i - 1);
    }
}

/// A scan that saw no matching row exhausts `find_row`.
pub proof fn lemma_find_row_none<T: Row>(s: Seq<T>, id: u128)
    requires
        forall|k: int| 0 <= k < s.len() ==> #[trigger] s[k].row_id() != id,
    ensures
        find_row(s, id) is None,
    decreases s.len(),
{
    if s.len() > 0 {
        let t = s.subrange(1, s.len() as int);
        assert(forall|k: int| 0 <= k < t.len() ==> #[trigger] t[k].row_id() != id);
        lemma_find_row_none(t, id);
    }
}

/// What `find_row` returns is a row of the table with the identifier
/// asked for, and a `None` means no row carries it.
pub proof fn lemma_find_row_spec<T: Row>(s: Seq<T>, id: u128)
    ensures
        match find_row(s, id) {
            Some(r) => r.row_id() == id && exists|i: int|
                0 <= i < s.len() && s[i] == r && #[trigger] s[i].row_id() == id,
            None => !contains_id(s, id),
        },
    decreases s.len(),
{
    if s.len() == 0 {
    } else if s[0].row_id() == id {
        assert(s[0].row_id() == id);
    } else {
        let t = s.subrange(1, s.len() as int);
        lemma_find_row_spec(t, id);
        match find_row(t, id) {
            Some(r) => {
                let i = choose|i: int| 0 <= i < t.len() && t[i] == r && #[trigger] t[i].row_id()
                    == id;
                assert(s[i + 1] == r && s[i + 1].row_id() == id);
            },
            None => {
                assert forall|i: int| 0 <= i < s.len() implies #[trigger] s[i].row_id()
                    != id by {
                    if i > 0 {
                        assert(t[i - 1] == s[i]);
                    }
                }
            },
        }
    }
}

/// Removing the row at a matching position leaves a table without the
/// identifier, provided identifiers were unique.
pub proof fn lemma_remove_id<T: Row>(s: Seq<T>, id: u128, i: int)
    requires
        ids_unique(s),
        0 <= i < s.len(),
        s[i].row_id() == id,
    ensures
        !contains_id(s.remove(i), id),
        ids_unique(s.remove(i)),
{
    let t = s.remove(i);
    assert forall|k: int| 0 <= k < t.len() implies #[trigger] t[k].row_id() != id by {
        if k < i {
            assert(t[k] == s[k]);
        } else {
            assert(t[k] == s[k + 1]);
        }
    }
    assert forall|p: int, q: int| 0 <= p < q < t.len() implies #[trigger] t[p].row_id()
        != #[trigger] t[q].row_id() by {
        let sp = if p < i { p } else { p + 1 };
        let sq = if q < i { q } else { q + 1 };
        assert(t[p] == s[sp] && t[q] == s[sq]);
    }
}

/// Appending a row with a fresh identifier keeps identifiers unique.
pub proof fn lemma_push_unique<T: Row>(s: Seq<T>, r: T)
    requires
        ids_unique(s),
        !contains_id(s, r.row_id()),
    ensures
        ids_unique(s.push(r)),
{
    let t = s.push(r);
    assert forall|p: int, q: int| 0 <= p < q < t.len() implies #[trigger] t[p].row_id()
        != #[trigger] t[q].row_id() by {
        if q < s.len() {
            assert(t[p] == s[p] && t[q] == s[q]);
        } else {
            assert(t[q] == r && t[p] == s[p]);
            assert(!(s[p].row_id() == r.row_id())) by {
                if s[p].row_id() == r.row_id() {
                    assert(contains_id(s, r.row_id()));
                }
            }
        }
    }
}

/// Inserting a row with a fresh identifier at any position keeps
/// identifiers unique, and the identifier is then present.
pub proof fn lemma_insert_unique<T: Row>(s: Seq<T>, r: T, i: int)
    requires
        ids_unique(s),
        !contains_id(s, r.row_id()),
        0 <= i <= s.len(),
    ensures
        ids_unique(s.insert(i, r)),
        contains_id(s.insert(i, r), r.row_id()),
        find_row(s.insert(i, r), r.row_id()) == Some(r),
        forall|id: u128| id != r.row_id() ==> #[trigger] find_row(s.insert(i, r), id) == find_row(
            s,
            id,
        ),
{
    let t = s.insert(i, r);
    s.insert_ensures(i, r);
    assert forall|p: int, q: int| 0 <= p < q < t.len() implies #[trigger] t[p].row_id()
        != #[trigger] t[q].row_id() by {
        if p != i && q != i {
            let sp = if p < i { p } else { p - 1 };
            let sq = if q < i { q } else { q - 1 };
            assert(t[p] == s[sp] && t[q] == s[sq]);
        } else if p == i {
            assert(t[p] == r && t[q] == s[q - 1]);
            if s[q - 1].row_id() == r.row_id() {
                assert(contains_id(s, r.row_id()));
            }
        } else {
            assert(t[q] == r && t[p] == s[p]);
            if s[p].row_id() == r.row_id() {
                assert(contains_id(s, r.row_id()));
            }
        }
    }
    assert(t[i] == r && t[i].row_id() == r.row_id());
    assert forall|k: int| 0 <= k < i implies #[trigger] t[k].row_id() != r.row_id() by {
        assert(t[k] == s[k]);
        if s[k].row_id() == r.row_id() {
            assert(contains_id(s, r.row_id()));
        }
    }
    lemma_find_row_at(t, r.row_id(), i);
    assert forall|id: u128| id != r.row_id() implies #[trigger] find_row(t, id) == find_row(
        s,
        id,
    ) by {
        lemma_find_skip_insert(s, r, i, id);
    }
}

/// Lookup of a different identifier is unchanged by an insertion.
proof fn lemma_find_skip_insert<T: Row>(s: Seq<T>, r: T, i: int, id: u128)
    requires
        0 <= i <= s.len(),
        r.row_id() != id,
    ensures
        find_row(s.insert(i, r), id) == find_row(s, id),
    decreases s.len(),
{
    let t = s.insert(i, r);
    s.insert_ensures(i, r);
    if i == 0 {
        assert(t[0] == r);
        assert(t.subrange(1, t.len() as int) =~= s);
    } else {
        assert(t[0] == s[0]);
        if s[0].row_id() == id {
        } else {
            assert(t.subrange(1, t.len() as int) =~= s.subrange(1, s.len() as int).insert(
                i - 1,
                r,
            ));
            lemma_find_skip_insert(s.subrange(1, s.len() as int), r, i - 1, id);
        }
    }
}

/// Replacing the row at a matching position with one carrying the same
/// identifier keeps identifiers unique.
pub proof fn lemma_update_unique<T: Row>(s: Seq<T>, i: int, r: T)
    requires
        ids_unique(s),
        0 <= i < s.len(),
        r.row_id() == s[i].row_id(),
    ensures
        ids_unique(s.update(i, r)),
{
    let t = s.update(i, r);
    assert forall|p: int, q: int| 0 <= p < q < t.len() implies #[trigger] t[p].row_id()
        != #[trigger] t[q].row_id() by {
        assert(s[p].row_id() != s[q].row_id());
    }
}

} // verus!
