//! The community entity service: creation stamps the creator from the
//! resolved principal and is refused for an unresolved one; updates are
//! merge-on-non-null; content creation advances the last-activity time
//! through this entity's touch operation.

use vstd::prelude::*;

use crate::clock::now_millis;
use crate::community_repository::{
    by_creator, merged_community, touched_community, touched_table, CommunityRepository,
};
use crate::identity::{resolve_principal, IdentityError};
use crate::ids::parsed_uuid;
use crate::model::{
    view_opt_string, Amount, Community, CreateCommunityDto, UpdateCommunityDto,
};
use crate::store::Store;
use crate::table::{contains_id, find_row, lemma_find_row_spec, Row};

verus! {

/// Failure of a community service operation.
#[derive(Clone, Copy, PartialEq, Eq, Structural, Debug)]
pub enum CommunityServiceError {
    /// The principal string does not parse as an internal identifier.
    MalformedIdentity,
    /// The principal resolves to no user record.
    IdentityNotFound,
    /// No community carries the identifier asked for.
    NotFound,
    /// The backing store reported a constraint violation.
    Store,
}

pub struct CommunityService;

impl CommunityService {
    /// Creates a community for the acting principal. The principal must
    /// resolve: a string that does not parse is malformed, one without a
    /// user record is not found, and either refusal leaves the store
    /// untouched. On success the creator pair is stamped from the
    /// resolved identity, the bounty defaults to zero when omitted, and
    /// every other optional field passes through unset. A store failure
    /// means the drawn identifier collided, which an empty table rules
    /// out.
    pub fn create_community(store: &mut Store, user_id: &str, dto: CreateCommunityDto) -> (r:
        Result<Community, CommunityServiceError>)
        requires
            old(store).wf(),
        ensures
            final(store).wf(),
            final(store).users_view() == old(store).users_view(),
            final(store).contents_view() == old(store).contents_view(),
            match parsed_uuid(user_id@) {
                Option::None => r matches Result::Err(e) && e
                    == CommunityServiceError::MalformedIdentity && *final(store) == *old(store),
                Option::Some(n) => match find_row(old(store).users_view(), n) {
                    Option::None => r matches Result::Err(e) && e
                        == CommunityServiceError::IdentityNotFound && *final(store) == *old(store),
                    Option::Some(urow) => match r {
                        Result::Ok(c) => {
                            &&& c@.creator_id == n
                            &&& c@.creator_xid == urow.user.xid
                            &&& c@.name == dto.name@
                            &&& c@.description == view_opt_string(dto.description)
                            &&& c@.last_message_time is None
                            &&& (dto.bounty_amount matches Option::Some(a) ==> c@.bounty_amount
                                == a)
                            &&& (dto.bounty_amount is None ==> c@.bounty_amount == (Amount {
                                mantissa: 0 as i128,
                                scale: 0 as u32,
                            }))
                            &&& !contains_id(old(store).communities_view(), c@.id)
                            &&& final(store).communities_view() == old(
                                store,
                            ).communities_view().push(c@)
                        },
                        Result::Err(e) => e == CommunityServiceError::Store && *final(store)
                            == *old(store) && old(store).communities_view().len() > 0,
                    },
                },
            },
    {
        let principal = match resolve_principal(store, user_id) {
            Result::Ok(p) => p,
            Result::Err(IdentityError::Malformed) => {
                return Err(CommunityServiceError::MalformedIdentity);
            },
            Result::Err(IdentityError::NotFound) => {
                return Err(CommunityServiceError::IdentityNotFound);
            },
        };
        let stamped = CreateCommunityDto {
            creator_id: Some(principal.id),
            creator_xid: Some(principal.xid),
            ..dto
        };
        match CommunityRepository::create(store, stamped) {
            Result::Ok(c) => Ok(c),
            Result::Err(_) => Err(CommunityServiceError::Store),
        }
    }

    /// All community records.
    pub fn get_all_communities(store: &Store) -> (r: Result<
        Vec<Community>,
        CommunityServiceError,
    >)
        ensures
            r matches Result::Ok(v) && v@.map_values(|c: Community| c@)
                == store.communities_view(),
    {
        Ok(CommunityRepository::find_all(store))
    }

    /// The community with this identifier, if any.
    pub fn get_community_by_id(store: &Store, id: u128) -> (r: Option<Community>)
        ensures
            match find_row(store.communities_view(), id) {
                Option::Some(row) => r is Some && r.unwrap()@ == row,
                Option::None => r is None,
            },
    {
        CommunityRepository::find_by_id(store, id)
    }

    /// The communities created by this user.
    pub fn get_communities_by_creator(store: &Store, creator_id: u128) -> (r: Vec<Community>)
        ensures
            r@.map_values(|c: Community| c@) == store.communities_view().filter(
                by_creator(creator_id),
            ),
    {
        CommunityRepository::find_by_creator_id(store, creator_id)
    }

    /// Merge-on-non-null update of the community with this identifier:
    /// each present field of the request overwrites, each absent one
    /// keeps its stored value; `None` when the identifier is absent.
    pub fn update_community(store: &mut Store, id: u128, dto: UpdateCommunityDto) -> (r: Option<
        Community,
    >)
        requires
            old(store).wf(),
        ensures
            final(store).wf(),
            final(store).users_view() == old(store).users_view(),
            final(store).contents_view() == old(store).contents_view(),
            ({
                let s = old(store).communities_view();
                match find_row(s, id) {
                    Option::None => r is None && *final(store) == *old(store),
                    Option::Some(row) => {
                        &&& r is Some && r.unwrap()@ == merged_community(row, dto)
                        &&& final(store).communities_view().len() == s.len()
                        &&& forall|k: int|
                            0 <= k < s.len() ==> final(store).communities_view()[k] == (if s[k].id
                                == id {
                                merged_community(row, dto)
                            } else {
                                s[k]
                            })
                    },
                }
            }),
    {
        CommunityRepository::update(store, id, dto)
    }

    /// Deletes the community with this identifier; not found when no row
    /// was affected.
    pub fn delete_community(store: &mut Store, id: u128) -> (r: Result<(), CommunityServiceError>)
        requires
            old(store).wf(),
        ensures
            final(store).wf(),
            final(store).users_view() == old(store).users_view(),
            final(store).contents_view() == old(store).contents_view(),
            !contains_id(final(store).communities_view(), id),
            match r {
                Result::Ok(_) => contains_id(old(store).communities_view(), id) && exists|i: int|
                    0 <= i < old(store).communities_view().len() && old(
                        store,
                    ).communities_view()[i].id == id && final(store).communities_view() == old(
                        store,
                    ).communities_view().remove(i),
                Result::Err(e) => e == CommunityServiceError::NotFound && !contains_id(
                    old(store).communities_view(),
                    id,
                ) && *final(store) == *old(store),
            },
    {
        if CommunityRepository::delete(store, id) {
            Ok(())
        } else {
            Err(CommunityServiceError::NotFound)
        }
    }

    /// Sets the last-activity time of the community to the current
    /// instant; reports whether a row was affected.
    pub fn touch_last_message_time(store: &mut Store, id: u128) -> (r: bool)
        requires
            old(store).wf(),
        ensures
            final(store).wf(),
            final(store).users_view() == old(store).users_view(),
            final(store).contents_view() == old(store).contents_view(),
            r == contains_id(old(store).communities_view(), id),
            !r ==> *final(store) == *old(store),
            r ==> touched_table(
                old(store).communities_view(),
                final(store).communities_view(),
                id,
            ),
    {
        let ghost s = old(store).communities_view();
        let t = now_millis();
        let touched = CommunityRepository::update_last_message_time(store, id, t);
        proof {
            if touched {
                lemma_find_row_spec(s, id);
                let row = find_row(s, id).unwrap();
                let i = choose|i: int| 0 <= i < s.len() && s[i] == row && #[trigger] s[
                    i
                ].row_id() == id;
                assert forall|k: int|
                    0 <= k < s.len() && s[k].id == id implies #[trigger] touched_community(
                    s[k],
                    final(store).communities_view()[k],
                ) && final(store).communities_view()[k].last_message_time is Some by {
                    assert(s[k].row_id() == id);
                    if k != i {
                        assert(s[k].row_id() != s[i].row_id());
                    }
                    assert(s[k] == row);
                }
            }
        }
        touched
    }
}

} // verus!
