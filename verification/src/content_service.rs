//! The content entity service: creation stamps the sender triple from
//! the resolved principal, degrades to sentinel values when the
//! principal has no record, and advances the owning community's
//! last-activity time with the content's own creation instant.

use vstd::prelude::*;

use crate::clock::now_millis;
use crate::community_repository::CommunityRepository;
use crate::content_repository::{by_community, ContentRepository};
use crate::identity::{resolve_principal, IdentityError};
use crate::ids::{fresh_uuid, parsed_uuid, uuid_str, uuid_string};
use crate::model::{
    view_opt_string, CommunityV, Content, CreateContentDto,
};
use crate::store::{sorted_desc, Store};
use crate::table::{contains_id, find_row};

verus! {

/// Failure of a content service operation.
#[derive(Clone, Copy, PartialEq, Eq, Structural, Debug)]
pub enum ContentServiceError {
    /// The principal string does not parse as an internal identifier.
    MalformedIdentity,
    /// A required field is missing from the request.
    Validation,
    /// No content carries the identifier asked for.
    NotFound,
    /// The backing store reported a constraint violation.
    Store,
}

pub struct ContentService;

impl ContentService {
    /// The acting principal of a create request: the sender identifier
    /// it carries, as a principal string; a request without one is
    /// rejected.
    pub fn sender_principal(dto: &CreateContentDto) -> (r: Result<String, ContentServiceError>)
        ensures
            match dto.sender_id {
                Option::Some(n) => r matches Result::Ok(s) && s@ == uuid_str(n),
                Option::None => r matches Result::Err(e) && e == ContentServiceError::Validation,
            },
    {
        match &dto.sender_id {
            Option::Some(n) => Ok(uuid_string(*n)),
            Option::None => Err(ContentServiceError::Validation),
        }
    }

    /// Creates a content row for the acting principal. A principal
    /// string that does not parse is malformed; one that parses but has
    /// no user record does not block the write: the sender falls back to
    /// the all-zero sentinel identifier, the raw principal string as
    /// external identifier, and an empty wallet address. The service does
    /// not check the owning community's existence before the insert; the
    /// store's foreign-key constraint refuses a dangling reference with a
    /// store-level error, and no row is kept. On success the row is
    /// placed newest-first and the community's last-activity time is set
    /// to the row's creation instant. A store failure on an existing
    /// community means the drawn identifier collided, which an empty
    /// content table rules out.
    pub fn create_content(store: &mut Store, user_id: &str, dto: CreateContentDto) -> (r: Result<
        Content,
        ContentServiceError,
    >)
        requires
            old(store).wf(),
        ensures
            final(store).wf(),
            final(store).users_view() == old(store).users_view(),
            match parsed_uuid(user_id@) {
                Option::None => r matches Result::Err(e) && e
                    == ContentServiceError::MalformedIdentity && *final(store) == *old(store),
                Option::Some(n) => match r {
                    Result::Ok(c) => {
                        &&& contains_id(old(store).communities_view(), dto.community_id)
                        &&& c@.content == dto.content@
                        &&& c@.community_id == dto.community_id
                        &&& c@.image_url == view_opt_string(dto.image_url)
                        &&& (match find_row(old(store).users_view(), n) {
                            Option::Some(urow) => c@.sender_id == n && c@.sender_xid
                                == urow.user.xid && c@.wallet_address == urow.user.wallet_address,
                            Option::None => c@.sender_id == 0 && c@.sender_xid == user_id@
                                && c@.wallet_address == Seq::<char>::empty(),
                        })
                        &&& !contains_id(old(store).contents_view(), c@.id)
                        &&& exists|i: int|
                            0 <= i <= old(store).contents_view().len() && final(store).contents_view() == #[trigger] old(store).contents_view().insert(
                                i,
                                c@,
                            )
                        &&& find_row(final(store).contents_view(), c@.id) == Some(c@)
                        &&& forall|other: u128|
                            other != c@.id ==> #[trigger] find_row(
                                final(store).contents_view(),
                                other,
                            ) == find_row(old(store).contents_view(), other)
                        &&& (match find_row(old(store).communities_view(), dto.community_id) {
                            Option::Some(comm) => {
                                &&& final(store).communities_view().len() == old(
                                    store,
                                ).communities_view().len()
                                &&& forall|k: int|
                                    0 <= k < old(store).communities_view().len() ==> final(store).communities_view()[k] == (if old(
                                        store,
                                    ).communities_view()[k].id == dto.community_id {
                                        CommunityV {
                                            last_message_time: Option::Some(c@.created_at),
                                            ..comm
                                        }
                                    } else {
                                        old(store).communities_view()[k]
                                    })
                            },
                            Option::None => false,
                        })
                    },
                    Result::Err(e) => e == ContentServiceError::Store && *final(store) == *old(
                        store,
                    ) && (contains_id(old(store).communities_view(), dto.community_id) ==> old(
                        store,
                    ).contents_view().len() > 0),
                },
            },
            parsed_uuid(user_id@) is Some && !contains_id(
                old(store).communities_view(),
                dto.community_id,
            ) ==> r is Err,
    {
        let community_id = dto.community_id;
        let (sender_id, sender_xid, wallet_address) = match resolve_principal(store, user_id) {
            Result::Ok(p) => (p.id, p.xid, p.wallet_address),
            Result::Err(IdentityError::Malformed) => {
                return Err(ContentServiceError::MalformedIdentity);
            },
            Result::Err(IdentityError::NotFound) => (0, user_id.to_owned(), String::new()),
        };
        let stamped = CreateContentDto {
            sender_id: Some(sender_id),
            sender_xid: Some(sender_xid),
            wallet_address: Some(wallet_address),
            ..dto
        };
        let id = fresh_uuid();
        let now = now_millis();
        let content = match ContentRepository::insert(store, stamped, id, now) {
            Result::Ok(c) => c,
            Result::Err(_) => {
                return Err(ContentServiceError::Store);
            },
        };
        proof {
            crate::table::lemma_find_row_spec(old(store).communities_view(), community_id);
        }
        let _touched = CommunityRepository::update_last_message_time(store, community_id, now);
        Ok(content)
    }

    /// The content with this identifier; `None` when absent, malformed
    /// when the identifier string does not parse.
    pub fn get_content_by_id(store: &Store, id: &str) -> (r: Result<
        Option<Content>,
        ContentServiceError,
    >)
        ensures
            match parsed_uuid(id@) {
                Option::None => r matches Result::Err(e) && e
                    == ContentServiceError::MalformedIdentity,
                Option::Some(n) => match find_row(store.contents_view(), n) {
                    Option::Some(row) => r matches Result::Ok(o) && o is Some && o.unwrap()@ == row,
                    Option::None => r matches Result::Ok(o) && o is None,
                },
            },
    {
        let n = match crate::ids::parse_uuid(id) {
            Option::Some(n) => n,
            Option::None => {
                return Err(ContentServiceError::MalformedIdentity);
            },
        };
        Ok(ContentRepository::find_by_id(store, n))
    }

    /// All content records, newest first.
    pub fn get_all_contents(store: &Store) -> (r: Result<Vec<Content>, ContentServiceError>)
        requires
            store.wf(),
        ensures
            r matches Result::Ok(v) && v@.map_values(|c: Content| c@) == store.contents_view()
                && sorted_desc(v@.map_values(|c: Content| c@)),
    {
        Ok(ContentRepository::find_all(store))
    }

    /// The content posted into this community, and nothing else, newest
    /// first; malformed when the identifier string does not parse.
    pub fn get_contents_by_community(store: &Store, community_id: &str) -> (r: Result<
        Vec<Content>,
        ContentServiceError,
    >)
        requires
            store.wf(),
        ensures
            match parsed_uuid(community_id@) {
                Option::None => r matches Result::Err(e) && e
                    == ContentServiceError::MalformedIdentity,
                Option::Some(n) => r matches Result::Ok(v) && v@.map_values(|c: Content| c@)
                    == store.contents_view().filter(by_community(n)) && sorted_desc(
                    v@.map_values(|c: Content| c@),
                ),
            },
    {
        let n = match crate::ids::parse_uuid(community_id) {
            Option::Some(n) => n,
            Option::None => {
                return Err(ContentServiceError::MalformedIdentity);
            },
        };
        Ok(ContentRepository::find_by_community_id(store, n))
    }

    /// Deletes the content with this identifier; not found when no row
    /// was affected, malformed when the identifier string does not
    /// parse.
    pub fn delete_content(store: &mut Store, id: &str) -> (r: Result<(), ContentServiceError>)
        requires
            old(store).wf(),
        ensures
            final(store).wf(),
            final(store).users_view() == old(store).users_view(),
            final(store).communities_view() == old(store).communities_view(),
            match parsed_uuid(id@) {
                Option::None => r matches Result::Err(e) && e
                    == ContentServiceError::MalformedIdentity && *final(store) == *old(store),
                Option::Some(n) => match r {
                    Result::Ok(_) => contains_id(old(store).contents_view(), n) && !contains_id(
                        final(store).contents_view(),
                        n,
                    ) && exists|i: int|
                        0 <= i < old(store).contents_view().len() && old(
                            store,
                        ).contents_view()[i].id == n && final(store).contents_view() == old(
                            store,
                        ).contents_view().remove(i),
                    Result::Err(e) => e == ContentServiceError::NotFound && !contains_id(
                        old(store).contents_view(),
                        n,
                    ) && *final(store) == *old(store),
                },
            },
    {
        let n = match crate::ids::parse_uuid(id) {
            Option::Some(n) => n,
            Option::None => {
                return Err(ContentServiceError::MalformedIdentity);
            },
        };
        if ContentRepository::delete(store, n) {
            Ok(())
        } else {
            Err(ContentServiceError::NotFound)
        }
    }
}

} // verus!
