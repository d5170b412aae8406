//! Typed CRUD over the communities table.

use vstd::prelude::*;

use crate::clock::now_millis;
use crate::ids::fresh_uuid;
use crate::model::{
    clone_opt_string, view_opt_string, Amount, Community, CommunityV, CreateCommunityDto,
    UpdateCommunityDto,
};
use crate::store::{Store, StoreError};
use crate::table::{
    contains_id, find_row, lemma_find_row_at, lemma_find_row_none,
    lemma_push_unique, lemma_remove_id, lemma_update_unique, Row,
};

verus! {

/// The community row a create request denotes, given the assigned
/// identifier and creation instant: the bounty defaults to zero, the
/// creator pair comes stamped from identity resolution (creation for an
/// unresolved principal is not permitted, so the store takes no
/// unstamped request), the last-activity time starts unset, and every
/// other optional field passes through unset rather than defaulted.
pub open spec fn created_community(dto: CreateCommunityDto, id: u128, now: i64) -> CommunityV
    recommends
        dto.creator_id is Some,
        dto.creator_xid is Some,
{
    CommunityV {
        id,
        name: dto.name@,
        description: view_opt_string(dto.description),
        created_at: now,
        creator_id: dto.creator_id.unwrap(),
        creator_xid: dto.creator_xid.unwrap()@,
        last_message_time: Option::None,
        contract_address: view_opt_string(dto.contract_address),
        bounty_amount: match dto.bounty_amount {
            Option::Some(a) => a,
            Option::None => Amount { mantissa: 0 as i128, scale: 0 as u32 },
        },
        time_limit: dto.time_limit,
        base_fee_bits: dto.base_fee_bits,
        wallet_address: view_opt_string(dto.wallet_address),
        image_url: view_opt_string(dto.image_url),
    }
}

/// The community row after a merge-on-non-null update: each present
/// field of the request overwrites, each absent one keeps the stored
/// value; the identifier, creator and creation time are never touched.
pub open spec fn merged_community(row: CommunityV, dto: UpdateCommunityDto) -> CommunityV {
    CommunityV {
        id: row.id,
        name: match dto.name {
            Option::Some(s) => s@,
            Option::None => row.name,
        },
        description: match dto.description {
            Option::Some(s) => Option::Some(s@),
            Option::None => row.description,
        },
        created_at: row.created_at,
        creator_id: row.creator_id,
        creator_xid: row.creator_xid,
        last_message_time: match dto.last_message_time {
            Option::Some(t) => Option::Some(t),
            Option::None => row.last_message_time,
        },
        contract_address: match dto.contract_address {
            Option::Some(s) => Option::Some(s@),
            Option::None => row.contract_address,
        },
        bounty_amount: match dto.bounty_amount {
            Option::Some(a) => a,
            Option::None => row.bounty_amount,
        },
        time_limit: match dto.time_limit {
            Option::Some(t) => Option::Some(t),
            Option::None => row.time_limit,
        },
        base_fee_bits: match dto.base_fee_bits {
            Option::Some(b) => Option::Some(b),
            Option::None => row.base_fee_bits,
        },
        wallet_address: match dto.wallet_address {
            Option::Some(s) => Option::Some(s@),
            Option::None => row.wallet_address,
        },
        image_url: match dto.image_url {
            Option::Some(s) => Option::Some(s@),
            Option::None => row.image_url,
        },
    }
}

/// Row `b` is row `a` with its last-activity time replaced.
pub open spec fn touched_community(a: CommunityV, b: CommunityV) -> bool {
    b == (CommunityV { last_message_time: b.last_message_time, ..a })
}

/// Table `t` is table `s` with the last-activity time of the row
/// carrying `id` set to some instant, and every other row unchanged.
pub open spec fn touched_table(s: Seq<CommunityV>, t: Seq<CommunityV>, id: u128) -> bool {
    &&& t.len() == s.len()
    &&& forall|k: int| 0 <= k < s.len() && s[k].id != id ==> t[k] == s[k]
    &&& forall|k: int|
        0 <= k < s.len() && s[k].id == id ==> #[trigger] touched_community(s[k], t[k])
            && t[k].last_message_time is Some
}

/// Selects the rows created by the given user.
pub open spec fn by_creator(creator_id: u128) -> spec_fn(CommunityV) -> bool {
    |c: CommunityV| c.creator_id == creator_id
}

pub struct CommunityRepository;

impl CommunityRepository {
    /// All community records, in table order.
    pub fn find_all(store: &Store) -> (r: Vec<Community>)
        ensures
            r@.map_values(|c: Community| c@) == store.communities_view(),
    {
        let mut out: Vec<Community> = Vec::new();
        let n = store.communities.len();
        let mut i: usize = 0;
        while i < n
            invariant
                n == store.communities.len(),
                i <= n,
                out@.len() == i,
                forall|k: int| 0 <= k < i ==> #[trigger] out@[k]@ == store.communities_view()[k],
            decreases n - i,
        {
            out.push(store.communities[i].clone());
            i += 1;
        }
        assert(out@.map_values(|c: Community| c@) =~= store.communities_view());
        out
    }

    /// The community with this identifier, if any.
    pub fn find_by_id(store: &Store, id: u128) -> (r: Option<Community>)
        ensures
            match find_row(store.communities_view(), id) {
                Option::Some(row) => r is Some && r.unwrap()@ == row,
                Option::None => r is None,
            },
    {
        let n = store.communities.len();
        let mut i: usize = 0;
        while i < n
            invariant
                n == store.communities.len(),
                i <= n,
                forall|k: int| 0 <= k < i ==> #[trigger] store.communities_view()[k].row_id() != id,
            decreases n - i,
        {
            if store.communities[i].id == id {
                proof {
                    lemma_find_row_at(store.communities_view(), id, i as int);
                }
                return Some(store.communities[i].clone());
            }
            i += 1;
        }
        proof {
            lemma_find_row_none(store.communities_view(), id);
        }
        None
    }

    /// The communities created by this user, in table order.
    pub fn find_by_creator_id(store: &Store, creator_id: u128) -> (r: Vec<Community>)
        ensures
            r@.map_values(|c: Community| c@) == store.communities_view().filter(
                by_creator(creator_id),
            ),
    {
        let ghost s = store.communities_view();
        let ghost p = by_creator(creator_id);
        let mut out: Vec<Community> = Vec::new();
        let n = store.communities.len();
        let mut i: usize = 0;
        proof {
            reveal(Seq::filter);
            assert(s.take(0).filter(p) =~= Seq::<CommunityV>::empty());
        }
        while i < n
            invariant
                s == store.communities_view(),
                p == by_creator(creator_id),
                n == store.communities.len(),
                i <= n,
                out@.map_values(|c: Community| c@) == s.take(i as int).filter(p),
            decreases n - i,
        {
            proof {
                reveal(Seq::filter);
                assert(s.take(i + 1).drop_last() =~= s.take(i as int));
                assert(s.take(i + 1).last() == s[i as int]);
            }
            if store.communities[i].creator_id == creator_id {
                out.push(store.communities[i].clone());
                assert(out@.map_values(|c: Community| c@) =~= s.take(i + 1).filter(p));
            } else {
                assert(out@.map_values(|c: Community| c@) =~= s.take(i + 1).filter(p));
            }
            i += 1;
        }
        assert(s.take(n as int) =~= s);
        out
    }

    /// Inserts a community with the given identifier and creation
    /// instant; succeeds exactly when the identifier is not already in
    /// the table. The creator pair must come stamped from identity
    /// resolution: creation for an unresolved principal is not
    /// permitted.
    pub fn insert(store: &mut Store, dto: CreateCommunityDto, id: u128, now: i64) -> (r: Result<
        Community,
        StoreError,
    >)
        requires
            old(store).wf(),
            dto.creator_id is Some,
            dto.creator_xid is Some,
        ensures
            final(store).wf(),
            final(store).users_view() == old(store).users_view(),
            final(store).contents_view() == old(store).contents_view(),
            match r {
                Result::Ok(c) => {
                    &&& !contains_id(old(store).communities_view(), id)
                    &&& c@ == created_community(dto, id, now)
                    &&& final(store).communities_view() == old(store).communities_view().push(c@)
                },
                Result::Err(e) => {
                    &&& e == StoreError::Conflict
                    &&& contains_id(old(store).communities_view(), id)
                    &&& *final(store) == *old(store)
                },
            },
    {
        let ghost s = old(store).communities_view();
        if Self::id_position(store, id).is_some() {
            return Err(StoreError::Conflict);
        }
        let row = Community {
            id,
            name: dto.name,
            description: dto.description,
            created_at: now,
            creator_id: dto.creator_id.unwrap(),
            creator_xid: dto.creator_xid.unwrap(),
            last_message_time: None,
            contract_address: dto.contract_address,
            bounty_amount: match dto.bounty_amount {
                Option::Some(a) => a,
                Option::None => Amount::zero(),
            },
            time_limit: dto.time_limit,
            base_fee_bits: dto.base_fee_bits,
            wallet_address: dto.wallet_address,
            image_url: dto.image_url,
        };
        let result = row.clone();
        proof {
            assert(row@ == created_community(dto, id, now));
            lemma_push_unique(s, row@);
        }
        store.communities.push(row);
        proof {
            assert(store.communities_view() =~= s.push(created_community(dto, id, now)));
        }
        Ok(result)
    }

    /// Creates a community: a fresh random identifier and the current
    /// instant as creation time, with the creator pair stamped from
    /// identity resolution (creation for an unresolved principal is not
    /// permitted). Fails with a conflict exactly when the drawn
    /// identifier collides with an existing row — so never on an empty
    /// table.
    pub fn create(store: &mut Store, dto: CreateCommunityDto) -> (r: Result<Community, StoreError>)
        requires
            old(store).wf(),
            dto.creator_id is Some,
            dto.creator_xid is Some,
        ensures
            final(store).wf(),
            final(store).users_view() == old(store).users_view(),
            final(store).contents_view() == old(store).contents_view(),
            match r {
                Result::Ok(c) => {
                    &&& !contains_id(old(store).communities_view(), c@.id)
                    &&& exists|id: u128, now: i64|
                        c@ == #[trigger] created_community(dto, id, now)
                    &&& c@.name == dto.name@
                    &&& c@.description == view_opt_string(dto.description)
                    &&& c@.last_message_time is None
                    &&& (dto.bounty_amount matches Option::Some(a) ==> c@.bounty_amount == a)
                    &&& (dto.bounty_amount is None ==> c@.bounty_amount == (Amount {
                        mantissa: 0 as i128,
                        scale: 0 as u32,
                    }))
                    &&& c@.creator_id == dto.creator_id.unwrap()
                    &&& c@.creator_xid == dto.creator_xid.unwrap()@
                    &&& final(store).communities_view() == old(store).communities_view().push(c@)
                },
                Result::Err(e) => {
                    &&& e == StoreError::Conflict
                    &&& *final(store) == *old(store)
                    &&& old(store).communities_view().len() > 0
                },
            },
    {
        let id = fresh_uuid();
        let now = now_millis();
        Self::insert(store, dto, id, now)
    }

    /// Merge-on-non-null update of the community with this identifier;
    /// `None` when the identifier is absent.
    pub fn update(store: &mut Store, id: u128, dto: UpdateCommunityDto) -> (r: Option<Community>)
        requires
            old(store).wf(),
        ensures
            final(store).wf(),
            final(store).users_view() == old(store).users_view(),
            final(store).contents_view() == old(store).contents_view(),
            ({
                let s = old(store).communities_view();
                match find_row(s, id) {
                    Option::None => r is None && *final(store) == *old(store),
                    Option::Some(row) => {
                        &&& r is Some && r.unwrap()@ == merged_community(row, dto)
                        &&& final(store).communities_view().len() == s.len()
                        &&& forall|k: int|
                            0 <= k < s.len() ==> final(store).communities_view()[k] == (if s[k].id
                                == id {
                                merged_community(row, dto)
                            } else {
                                s[k]
                            })
                    },
                }
            }),
    {
        let ghost s = old(store).communities_view();
        let pos = match Self::id_position(store, id) {
            Option::Some(i) => i,
            Option::None => {
                proof {
                    lemma_find_row_none(s, id);
                }
                return None;
            },
        };
        proof {
            lemma_find_row_at(s, id, pos as int);
        }
        let ghost row = s[pos as int];
        let merged = Community {
            id: store.communities[pos].id,
            name: match dto.name {
                Option::Some(v) => v,
                Option::None => store.communities[pos].name.clone(),
            },
            description: match dto.description {
                Option::Some(v) => Option::Some(v),
                Option::None => clone_opt_string(&store.communities[pos].description),
            },
            created_at: store.communities[pos].created_at,
            creator_id: store.communities[pos].creator_id,
            creator_xid: store.communities[pos].creator_xid.clone(),
            last_message_time: match dto.last_message_time {
                Option::Some(t) => Option::Some(t),
                Option::None => store.communities[pos].last_message_time,
            },
            contract_address: match dto.contract_address {
                Option::Some(v) => Option::Some(v),
                Option::None => clone_opt_string(&store.communities[pos].contract_address),
            },
            bounty_amount: match dto.bounty_amount {
                Option::Some(a) => a,
                Option::None => store.communities[pos].bounty_amount,
            },
            time_limit: match dto.time_limit {
                Option::Some(t) => Option::Some(t),
                Option::None => store.communities[pos].time_limit,
            },
            base_fee_bits: match dto.base_fee_bits {
                Option::Some(b) => Option::Some(b),
                Option::None => store.communities[pos].base_fee_bits,
            },
            wallet_address: match dto.wallet_address {
                Option::Some(v) => Option::Some(v),
                Option::None => clone_opt_string(&store.communities[pos].wallet_address),
            },
            image_url: match dto.image_url {
                Option::Some(v) => Option::Some(v),
                Option::None => clone_opt_string(&store.communities[pos].image_url),
            },
        };
        let result = merged.clone();
        proof {
            assert(merged@ == merged_community(row, dto));
            lemma_update_unique(s, pos as int, merged@);
        }
        store.communities.set(pos, merged);
        proof {
            let t = store.communities_view();
            assert(t =~= s.update(pos as int, merged_community(row, dto)));
            assert forall|k: int|
                0 <= k < s.len() implies t[k] == (if s[k].id == id {
                merged_community(row, dto)
            } else {
                s[k]
            }) by {
                if k != pos {
                    assert(s[k].row_id() != s[pos as int].row_id());
                }
            }
        }
        Some(result)
    }

    /// Deletes the community with this identifier; reports whether a row
    /// was affected.
    pub fn delete(store: &mut Store, id: u128) -> (r: bool)
        requires
            old(store).wf(),
        ensures
            final(store).wf(),
            final(store).users_view() == old(store).users_view(),
            final(store).contents_view() == old(store).contents_view(),
            r == contains_id(old(store).communities_view(), id),
            !r ==> *final(store) == *old(store),
            r ==> exists|i: int|
                0 <= i < old(store).communities_view().len() && old(store).communities_view()[i].id
                    == id && final(store).communities_view() == old(
                    store,
                ).communities_view().remove(i),
            !contains_id(final(store).communities_view(), id),
    {
        let ghost s = old(store).communities_view();
        let pos = match Self::id_position(store, id) {
            Option::Some(i) => i,
            Option::None => {
                return false;
            },
        };
        store.communities.remove(pos);
        proof {
            let t = store.communities_view();
            assert(t =~= s.remove(pos as int));
            lemma_remove_id(s, id, pos as int);
            s.remove_ensures(pos as int);
        }
        true
    }

    /// Sets the last-activity time of the community to the given
    /// instant; reports whether a row was affected. Touches nothing
    /// else.
    pub fn update_last_message_time(store: &mut Store, id: u128, t: i64) -> (r: bool)
        requires
            old(store).wf(),
        ensures
            final(store).wf(),
            final(store).users_view() == old(store).users_view(),
            final(store).contents_view() == old(store).contents_view(),
            r == contains_id(old(store).communities_view(), id),
            !r ==> *final(store) == *old(store),
            ({
                let s = old(store).communities_view();
                match find_row(s, id) {
                    Option::None => *final(store) == *old(store),
                    Option::Some(row) => {
                        &&& final(store).communities_view().len() == s.len()
                        &&& forall|k: int|
                            0 <= k < s.len() ==> final(store).communities_view()[k] == (if s[k].id
                                == id {
                                CommunityV { last_message_time: Option::Some(t), ..row }
                            } else {
                                s[k]
                            })
                    },
                }
            }),
    {
        let ghost s = old(store).communities_view();
        let pos = match Self::id_position(store, id) {
            Option::Some(i) => i,
            Option::None => {
                proof {
                    lemma_find_row_none(s, id);
                }
                return false;
            },
        };
        proof {
            lemma_find_row_at(s, id, pos as int);
        }
        let ghost row = s[pos as int];
        let touched = Community {
            id: store.communities[pos].id,
            name: store.communities[pos].name.clone(),
            description: clone_opt_string(&store.communities[pos].description),
            created_at: store.communities[pos].created_at,
            creator_id: store.communities[pos].creator_id,
            creator_xid: store.communities[pos].creator_xid.clone(),
            last_message_time: Some(t),
            contract_address: clone_opt_string(&store.communities[pos].contract_address),
            bounty_amount: store.communities[pos].bounty_amount,
            time_limit: store.communities[pos].time_limit,
            base_fee_bits: store.communities[pos].base_fee_bits,
            wallet_address: clone_opt_string(&store.communities[pos].wallet_address),
            image_url: clone_opt_string(&store.communities[pos].image_url),
        };
        proof {
            assert(touched@ == (CommunityV { last_message_time: Option::Some(t), ..row }));
            lemma_update_unique(s, pos as int, touched@);
        }
        store.communities.set(pos, touched);
        proof {
            let u = store.communities_view();
            assert(u =~= s.update(
                pos as int,
                CommunityV { last_message_time: Option::Some(t), ..row },
            ));
            assert forall|k: int|
                0 <= k < s.len() implies u[k] == (if s[k].id == id {
                CommunityV { last_message_time: Option::Some(t), ..row }
            } else {
                s[k]
            }) by {
                if k != pos {
                    assert(s[k].row_id() != s[pos as int].row_id());
                }
            }
        }
        true
    }

    /// The position of the row carrying this identifier.
    fn id_position(store: &Store, id: u128) -> (r: Option<usize>)
        ensures
            match r {
                Option::Some(i) => i < store.communities_view().len() && store.communities_view()[
                    i as int
                ].id == id && forall|k: int|
                    0 <= k < i ==> #[trigger] store.communities_view()[k].row_id() != id,
                Option::None => !contains_id(store.communities_view(), id),
            },
            r is Some <==> contains_id(store.communities_view(), id),
    {
        let n = store.communities.len();
        let mut i: usize = 0;
        while i < n
            invariant
                n == store.communities.len(),
                i <= n,
                forall|k: int| 0 <= k < i ==> #[trigger] store.communities_view()[k].row_id() != id,
            decreases n - i,
        {
            if store.communities[i].id == id {
                assert(store.communities_view()[i as int].row_id() == id);
                return Some(i);
            }
            i += 1;
        }
        None
    }
}

} // verus!
