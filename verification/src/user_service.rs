//! The user entity service: listing, lookup, creation with email
//! uniqueness, merge-on-non-null update, and deletion.

use vstd::prelude::*;

use crate::ids::uuid_str;
use crate::model::{CreateUserDto, UpdateUserDto, User, UserRowV};
use crate::model::view_opt_string;
use crate::store::{email_taken, find_user_by_email_spec, Store};
use crate::table::{contains_id, find_row};
use crate::user_repository::{merged_user_row, user_update_conflict, UserRepository};

verus! {

/// Failure of a user service operation.
#[derive(Clone, Copy, PartialEq, Eq, Structural, Debug)]
pub enum UserServiceError {
    /// The backing store reported a constraint violation.
    Database,
    /// No user carries the identifier asked for.
    NotFound,
    /// The email is already registered.
    EmailExists,
}

pub struct UserService;

impl UserService {
    /// All user records.
    pub fn get_all_users(store: &Store) -> (r: Result<Vec<User>, UserServiceError>)
        ensures
            r matches Result::Ok(v) && v@.map_values(|u: User| u@) == store.users_view().map_values(
                |x: UserRowV| x.user,
            ),
    {
        Ok(UserRepository::find_all(store))
    }

    /// The user with this identifier; not found when absent.
    pub fn get_user_by_id(store: &Store, id: u128) -> (r: Result<User, UserServiceError>)
        ensures
            match find_row(store.users_view(), id) {
                Option::Some(row) => r matches Result::Ok(u) && u@ == row.user,
                Option::None => r matches Result::Err(e) && e == UserServiceError::NotFound,
            },
    {
        match UserRepository::find_by_id(store, id) {
            Option::Some(u) => Ok(u),
            Option::None => Err(UserServiceError::NotFound),
        }
    }

    /// The user with this email; not found when absent.
    pub fn get_user_by_email(store: &Store, email: &String) -> (r: Result<User, UserServiceError>)
        ensures
            match find_user_by_email_spec(store.users_view(), email@) {
                Option::Some(row) => r matches Result::Ok(u) && u@ == row.user,
                Option::None => r matches Result::Err(e) && e == UserServiceError::NotFound,
            },
    {
        match UserRepository::find_by_email(store, email) {
            Option::Some(u) => Ok(u),
            Option::None => Err(UserServiceError::NotFound),
        }
    }

    /// Creates a user. Rejected with an email conflict exactly when the
    /// email is already registered; on success the server assigns the
    /// internal identifier, derives the external one from it, stamps both
    /// timestamps with one instant, and echoes every caller-supplied
    /// field unchanged. A store failure means the drawn identifier
    /// collided, which an empty table rules out.
    pub fn create_user(store: &mut Store, dto: CreateUserDto) -> (r: Result<
        User,
        UserServiceError,
    >)
        requires
            old(store).wf(),
        ensures
            final(store).wf(),
            final(store).communities_view() == old(store).communities_view(),
            final(store).contents_view() == old(store).contents_view(),
            (r matches Result::Err(e) && e == UserServiceError::EmailExists) <==> email_taken(
                old(store).users_view(),
                dto.email@,
            ),
            match r {
                Result::Ok(u) => {
                    &&& !contains_id(old(store).users_view(), u@.id)
                    &&& u@.xid == uuid_str(u@.id)
                    &&& u@.username == dto.username@
                    &&& u@.profile_image_url == view_opt_string(dto.profile_image_url)
                    &&& u@.wallet_address == dto.wallet_address@
                    &&& u@.email == dto.email@
                    &&& u@.created_at == u@.updated_at
                    &&& final(store).users_view() == old(store).users_view().push(
                        UserRowV { user: u@, password: dto.password@ },
                    )
                },
                Result::Err(e) => {
                    &&& *final(store) == *old(store)
                    &&& e != UserServiceError::NotFound
                    &&& (e == UserServiceError::Database ==> old(store).users_view().len() > 0)
                },
            },
    {
        if UserRepository::find_by_email(store, &dto.email).is_some() {
            return Err(UserServiceError::EmailExists);
        }
        match UserRepository::create(store, dto) {
            Result::Ok(u) => Ok(u),
            Result::Err(_) => Err(UserServiceError::Database),
        }
    }

    /// Merge-on-non-null update of the user with this identifier: each
    /// present field of the request overwrites, each absent one keeps its
    /// stored value — the update timestamp included, which stays at its
    /// stored value: the merge changes exactly the requested fields. Not
    /// found when the identifier is absent; a store conflict when the
    /// request would move the row onto a registered email of another
    /// user.
    pub fn update_user(store: &mut Store, id: u128, dto: UpdateUserDto) -> (r: Result<
        User,
        UserServiceError,
    >)
        requires
            old(store).wf(),
        ensures
            final(store).wf(),
            final(store).communities_view() == old(store).communities_view(),
            final(store).contents_view() == old(store).contents_view(),
            ({
                let s = old(store).users_view();
                match find_row(s, id) {
                    Option::None => r matches Result::Err(e) && e == UserServiceError::NotFound
                        && *final(store) == *old(store),
                    Option::Some(row) => {
                        if user_update_conflict(s, id, dto) {
                            r matches Result::Err(e) && e == UserServiceError::Database
                                && *final(store) == *old(store)
                        } else {
                            &&& r matches Result::Ok(u) && u@ == merged_user_row(row, dto).user
                            &&& final(store).users_view().len() == s.len()
                            &&& forall|k: int|
                                0 <= k < s.len() ==> final(store).users_view()[k] == (if s[k].user.id
                                    == id {
                                    merged_user_row(row, dto)
                                } else {
                                    s[k]
                                })
                        }
                    },
                }
            }),
    {
        match UserRepository::update(store, id, dto) {
            Result::Ok(Option::Some(u)) => Ok(u),
            Result::Ok(Option::None) => Err(UserServiceError::NotFound),
            Result::Err(_) => Err(UserServiceError::Database),
        }
    }

    /// Deletes the user with this identifier; not found when no row was
    /// affected.
    pub fn delete_user(store: &mut Store, id: u128) -> (r: Result<(), UserServiceError>)
        requires
            old(store).wf(),
        ensures
            final(store).wf(),
            final(store).communities_view() == old(store).communities_view(),
            final(store).contents_view() == old(store).contents_view(),
            !contains_id(final(store).users_view(), id),
            match r {
                Result::Ok(_) => contains_id(old(store).users_view(), id) && exists|i: int|
                    0 <= i < old(store).users_view().len() && old(store).users_view()[i].user.id
                        == id && final(store).users_view() == old(store).users_view().remove(i),
                Result::Err(e) => e == UserServiceError::NotFound && !contains_id(
                    old(store).users_view(),
                    id,
                ) && *final(store) == *old(store),
            },
    {
        if UserRepository::delete(store, id) {
            Ok(())
        } else {
            Err(UserServiceError::NotFound)
        }
    }
}

} // verus!
