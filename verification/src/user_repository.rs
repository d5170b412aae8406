//! Typed CRUD over the users table.

use vstd::prelude::*;

use crate::ids::{fresh_uuid, uuid_str, uuid_string};
use crate::clock::now_millis;
use crate::model::{
    clone_opt_string, view_opt_string, CreateUserDto, UpdateUserDto, User, UserRow, UserRowV,
    UserV,
};
use crate::store::{
    email_taken, find_user_by_email_spec, lemma_find_email_at, lemma_find_email_none,
    xids_derived, Store, StoreError,
};
use crate::table::{
    contains_id, find_row, lemma_find_row_at, lemma_find_row_none, lemma_find_row_spec,
    lemma_push_unique, lemma_remove_id, lemma_update_unique, Row,
};

verus! {

/// The user row after a merge-on-non-null update: each present field of
/// the request overwrites, each absent one keeps the stored value; the
/// identifiers and timestamps are never touched.
pub open spec fn merged_user_row(row: UserRowV, dto: UpdateUserDto) -> UserRowV {
    UserRowV {
        user: UserV {
            id: row.user.id,
            xid: row.user.xid,
            username: match dto.username {
                Option::Some(s) => s@,
                Option::None => row.user.username,
            },
            profile_image_url: match dto.profile_image_url {
                Option::Some(s) => Option::Some(s@),
                Option::None => row.user.profile_image_url,
            },
            wallet_address: match dto.wallet_address {
                Option::Some(s) => s@,
                Option::None => row.user.wallet_address,
            },
            email: match dto.email {
                Option::Some(s) => s@,
                Option::None => row.user.email,
            },
            created_at: row.user.created_at,
            updated_at: row.user.updated_at,
        },
        password: match dto.password {
            Option::Some(s) => s@,
            Option::None => row.password,
        },
    }
}

/// An update would move the row onto an email some other row already
/// carries.
pub open spec fn user_update_conflict(s: Seq<UserRowV>, id: u128, dto: UpdateUserDto) -> bool {
    match dto.email {
        Option::Some(e) => exists|i: int|
            0 <= i < s.len() && #[trigger] s[i].user.email == e@ && s[i].user.id != id,
        Option::None => false,
    }
}

pub struct UserRepository;

impl UserRepository {
    /// All user records, in table order.
    pub fn find_all(store: &Store) -> (r: Vec<User>)
        ensures
            r@.map_values(|u: User| u@) == store.users_view().map_values(|x: UserRowV| x.user),
    {
        let mut out: Vec<User> = Vec::new();
        let n = store.users.len();
        let mut i: usize = 0;
        while i < n
            invariant
                n == store.users.len(),
                i <= n,
                out@.len() == i,
                forall|k: int| 0 <= k < i ==> #[trigger] out@[k]@ == store.users_view()[k].user,
            decreases n - i,
        {
            out.push(store.users[i].user.clone());
            i += 1;
        }
        assert(out@.map_values(|u: User| u@) =~= store.users_view().map_values(
            |x: UserRowV| x.user,
        ));
        out
    }

    /// The user with this identifier, if any.
    pub fn find_by_id(store: &Store, id: u128) -> (r: Option<User>)
        ensures
            match find_row(store.users_view(), id) {
                Option::Some(row) => r is Some && r.unwrap()@ == row.user,
                Option::None => r is None,
            },
    {
        let n = store.users.len();
        let mut i: usize = 0;
        while i < n
            invariant
                n == store.users.len(),
                i <= n,
                forall|k: int| 0 <= k < i ==> #[trigger] store.users_view()[k].row_id() != id,
            decreases n - i,
        {
            if store.users[i].user.id == id {
                proof {
                    lemma_find_row_at(store.users_view(), id, i as int);
                }
                return Some(store.users[i].user.clone());
            }
            i += 1;
        }
        proof {
            lemma_find_row_none(store.users_view(), id);
        }
        None
    }

    /// The user with this email, if any.
    pub fn find_by_email(store: &Store, email: &String) -> (r: Option<User>)
        ensures
            match find_user_by_email_spec(store.users_view(), email@) {
                Option::Some(row) => r is Some && r.unwrap()@ == row.user,
                Option::None => r is None,
            },
            r is Some <==> email_taken(store.users_view(), email@),
    {
        let ghost s = store.users_view();
        let n = store.users.len();
        let mut i: usize = 0;
        while i < n
            invariant
                s == store.users_view(),
                n == store.users.len(),
                i <= n,
                forall|k: int| 0 <= k < i ==> #[trigger] s[k].user.email != email@,
            decreases n - i,
        {
            if store.users[i].user.email == *email {
                proof {
                    assert(s[i as int].user.email == email@);
                    lemma_find_email_at(s, email@, i as int);
                }
                return Some(store.users[i].user.clone());
            }
            i += 1;
        }
        proof {
            lemma_find_email_none(s, email@);
        }
        None
    }

    /// Inserts a user with the given identifier and creation instant.
    /// Succeeds exactly when neither the identifier nor the email is
    /// already in the table; the external identifier and both timestamps
    /// are assigned here, everything else is echoed from the request.
    pub fn insert(store: &mut Store, dto: CreateUserDto, id: u128, now: i64) -> (r: Result<
        User,
        StoreError,
    >)
        requires
            old(store).wf(),
        ensures
            final(store).wf(),
            final(store).communities_view() == old(store).communities_view(),
            final(store).contents_view() == old(store).contents_view(),
            match r {
                Result::Ok(u) => {
                    &&& !contains_id(old(store).users_view(), id)
                    &&& !email_taken(old(store).users_view(), dto.email@)
                    &&& u@ == (UserV {
                        id,
                        xid: uuid_str(id),
                        username: dto.username@,
                        profile_image_url: view_opt_string(dto.profile_image_url),
                        wallet_address: dto.wallet_address@,
                        email: dto.email@,
                        created_at: now,
                        updated_at: now,
                    })
                    &&& final(store).users_view() == old(store).users_view().push(
                        UserRowV { user: u@, password: dto.password@ },
                    )
                },
                Result::Err(e) => {
                    &&& e == StoreError::Conflict
                    &&& contains_id(old(store).users_view(), id) || email_taken(
                        old(store).users_view(),
                        dto.email@,
                    )
                    &&& *final(store) == *old(store)
                },
            },
    {
        let ghost s = old(store).users_view();
        if Self::id_present(store, id) {
            return Err(StoreError::Conflict);
        }
        if Self::email_present(store, &dto.email) {
            return Err(StoreError::Conflict);
        }
        let user = User {
            id,
            xid: uuid_string(id),
            username: dto.username,
            profile_image_url: dto.profile_image_url,
            wallet_address: dto.wallet_address,
            email: dto.email,
            created_at: now,
            updated_at: now,
        };
        let result = user.clone();
        let row = UserRow { user, password: dto.password };
        proof {
            lemma_push_unique(s, row@);
        }
        store.users.push(row);
        proof {
            assert(store.users_view() =~= s.push(row@));
            assert forall|p: int, q: int|
                0 <= p < q < store.users_view().len() implies #[trigger] store.users_view()[p].user.email
                != #[trigger] store.users_view()[q].user.email by {
                if q < s.len() {
                    assert(store.users_view()[p] == s[p] && store.users_view()[q] == s[q]);
                } else {
                    assert(store.users_view()[q] == row@ && store.users_view()[p] == s[p]);
                    if s[p].user.email == row@.user.email {
                        assert(email_taken(s, row@.user.email));
                    }
                }
            }
            assert(xids_derived(store.users_view()));
        }
        Ok(result)
    }

    /// Creates a user: a fresh random identifier, the external identifier
    /// derived from it, both timestamps set to the same current instant.
    /// Fails with a conflict exactly when the email is already registered
    /// or the drawn identifier collides with an existing row — so never
    /// on an empty table.
    pub fn create(store: &mut Store, dto: CreateUserDto) -> (r: Result<User, StoreError>)
        requires
            old(store).wf(),
        ensures
            final(store).wf(),
            final(store).communities_view() == old(store).communities_view(),
            final(store).contents_view() == old(store).contents_view(),
            match r {
                Result::Ok(u) => {
                    &&& !contains_id(old(store).users_view(), u@.id)
                    &&& !email_taken(old(store).users_view(), dto.email@)
                    &&& u@.xid == uuid_str(u@.id)
                    &&& u@.username == dto.username@
                    &&& u@.profile_image_url == view_opt_string(dto.profile_image_url)
                    &&& u@.wallet_address == dto.wallet_address@
                    &&& u@.email == dto.email@
                    &&& u@.created_at == u@.updated_at
                    &&& final(store).users_view() == old(store).users_view().push(
                        UserRowV { user: u@, password: dto.password@ },
                    )
                },
                Result::Err(e) => {
                    &&& e == StoreError::Conflict
                    &&& *final(store) == *old(store)
                    &&& old(store).users_view().len() > 0
                },
            },
    {
        let id = fresh_uuid();
        let now = now_millis();
        Self::insert(store, dto, id, now)
    }

    /// Merge-on-non-null update of the user with this identifier.
    /// Returns the merged record, `None` when the identifier is absent,
    /// or a conflict when the request would move the row onto an email
    /// some other row already carries.
    pub fn update(store: &mut Store, id: u128, dto: UpdateUserDto) -> (r: Result<
        Option<User>,
        StoreError,
    >)
        requires
            old(store).wf(),
        ensures
            final(store).wf(),
            final(store).communities_view() == old(store).communities_view(),
            final(store).contents_view() == old(store).contents_view(),
            ({
                let s = old(store).users_view();
                match find_row(s, id) {
                    Option::None => r matches Result::Ok(o) && o is None && *final(store) == *old(
                        store,
                    ),
                    Option::Some(row) => {
                        if user_update_conflict(s, id, dto) {
                            r matches Result::Err(e) && e == StoreError::Conflict && *final(store)
                                == *old(store)
                        } else {
                            &&& r matches Result::Ok(o) && o matches Option::Some(u) && u@
                                == merged_user_row(row, dto).user
                            &&& final(store).users_view().len() == s.len()
                            &&& forall|k: int|
                                0 <= k < s.len() ==> final(store).users_view()[k] == (if s[k].user.id
                                    == id {
                                    merged_user_row(row, dto)
                                } else {
                                    s[k]
                                })
                        }
                    },
                }
            }),
    {
        let ghost s = old(store).users_view();
        let pos = match Self::id_position(store, id) {
            Option::Some(i) => i,
            Option::None => {
                proof {
                    lemma_find_row_none(s, id);
                }
                return Ok(None);
            },
        };
        proof {
            lemma_find_row_at(s, id, pos as int);
        }
        let ghost row = s[pos as int];
        if let Option::Some(e) = &dto.email {
            if Self::other_email_present(store, id, e) {
                return Err(StoreError::Conflict);
            }
        }
        let merged = UserRow {
            user: User {
                id: store.users[pos].user.id,
                xid: store.users[pos].user.xid.clone(),
                username: match dto.username {
                    Option::Some(s) => s,
                    Option::None => store.users[pos].user.username.clone(),
                },
                profile_image_url: match dto.profile_image_url {
                    Option::Some(s) => Option::Some(s),
                    Option::None => clone_opt_string(&store.users[pos].user.profile_image_url),
                },
                wallet_address: match dto.wallet_address {
                    Option::Some(s) => s,
                    Option::None => store.users[pos].user.wallet_address.clone(),
                },
                email: match dto.email {
                    Option::Some(s) => s,
                    Option::None => store.users[pos].user.email.clone(),
                },
                created_at: store.users[pos].user.created_at,
                updated_at: store.users[pos].user.updated_at,
            },
            password: match dto.password {
                Option::Some(s) => s,
                Option::None => store.users[pos].password.clone(),
            },
        };
        let result = merged.user.clone();
        proof {
            assert(merged@ == merged_user_row(row, dto));
            lemma_update_unique(s, pos as int, merged@);
        }
        store.users.set(pos, merged);
        proof {
            let t = store.users_view();
            assert(t =~= s.update(pos as int, merged_user_row(row, dto)));
            assert forall|p: int, q: int|
                0 <= p < q < t.len() implies #[trigger] t[p].user.email
                != #[trigger] t[q].user.email by {
                if p != pos && q != pos {
                    assert(t[p] == s[p] && t[q] == s[q]);
                } else {
                    let other = if p == pos {
                        q
                    } else {
                        p
                    };
                    assert(t[other] == s[other]);
                    assert(s[other].row_id() != s[pos as int].row_id());
                    match dto.email {
                        Option::Some(_) => {
                            if s[other].user.email == merged_user_row(row, dto).user.email {
                                assert(s[other].user.id == id);
                            }
                        },
                        Option::None => {
                            assert(merged_user_row(row, dto).user.email == s[
                                pos as int
                            ].user.email);
                            assert(s[other].user.email != s[pos as int].user.email);
                        },
                    }
                }
            }
            assert(xids_derived(t));
            assert forall|k: int|
                0 <= k < s.len() implies t[k] == (if s[k].user.id == id {
                merged_user_row(row, dto)
            } else {
                s[k]
            }) by {
                if k != pos {
                    assert(s[k].row_id() != s[pos as int].row_id());
                }
            }
        }
        Ok(Some(result))
    }

    /// Deletes the user with this identifier; reports whether a row was
    /// affected.
    pub fn delete(store: &mut Store, id: u128) -> (r: bool)
        requires
            old(store).wf(),
        ensures
            final(store).wf(),
            final(store).communities_view() == old(store).communities_view(),
            final(store).contents_view() == old(store).contents_view(),
            r == contains_id(old(store).users_view(), id),
            !r ==> *final(store) == *old(store),
            r ==> exists|i: int|
                0 <= i < old(store).users_view().len() && old(store).users_view()[i].user.id == id
                    && final(store).users_view() == old(store).users_view().remove(i),
            !contains_id(final(store).users_view(), id),
    {
        let ghost s = old(store).users_view();
        let pos = match Self::id_position(store, id) {
            Option::Some(i) => i,
            Option::None => {
                proof {
                    lemma_find_row_none(s, id);
                    lemma_find_row_spec(s, id);
                }
                return false;
            },
        };
        store.users.remove(pos);
        proof {
            let t = store.users_view();
            assert(t =~= s.remove(pos as int));
            lemma_remove_id(s, id, pos as int);
            s.remove_ensures(pos as int);
            assert forall|p: int, q: int|
                0 <= p < q < t.len() implies #[trigger] t[p].user.email
                != #[trigger] t[q].user.email by {
                let sp = if p < pos { p } else { p + 1 };
                let sq = if q < pos { q } else { q + 1 };
                assert(t[p] == s[sp] && t[q] == s[sq]);
            }
            assert forall|k: int| 0 <= k < t.len() implies #[trigger] t[k].user.xid == crate::ids::uuid_str(
                t[k].user.id,
            ) by {
                let sk = if k < pos { k } else { k + 1 };
                assert(t[k] == s[sk]);
            }
        }
        true
    }

    /// The external identifier of the user whose internal identifier the
    /// string encodes; `None` when the string does not parse or no such
    /// user exists.
    pub fn get_xid_by_id(store: &Store, id: &str) -> (r: Result<
        String,
        crate::identity::IdentityError,
    >)
        ensures
            match crate::ids::parsed_uuid(id@) {
                Option::None => r matches Result::Err(e) && e
                    == crate::identity::IdentityError::Malformed,
                Option::Some(n) => match find_row(store.users_view(), n) {
                    Option::Some(row) => r matches Result::Ok(x) && x@ == row.user.xid,
                    Option::None => r matches Result::Err(e) && e
                        == crate::identity::IdentityError::NotFound,
                },
            },
    {
        match crate::identity::resolve_principal(store, id) {
            Result::Ok(p) => Ok(p.xid),
            Result::Err(e) => Err(e),
        }
    }

    /// Whether some row carries this identifier.
    fn id_present(store: &Store, id: u128) -> (r: bool)
        ensures
            r == contains_id(store.users_view(), id),
    {
        Self::id_position(store, id).is_some()
    }

    /// The position of the row carrying this identifier.
    fn id_position(store: &Store, id: u128) -> (r: Option<usize>)
        ensures
            match r {
                Option::Some(i) => i < store.users_view().len() && store.users_view()[
                    i as int
                ].user.id == id && forall|k: int|
                    0 <= k < i ==> #[trigger] store.users_view()[k].row_id() != id,
                Option::None => !contains_id(store.users_view(), id),
            },
            r is Some <==> contains_id(store.users_view(), id),
    {
        let n = store.users.len();
        let mut i: usize = 0;
        while i < n
            invariant
                n == store.users.len(),
                i <= n,
                forall|k: int| 0 <= k < i ==> #[trigger] store.users_view()[k].row_id() != id,
            decreases n - i,
        {
            if store.users[i].user.id == id {
                assert(store.users_view()[i as int].row_id() == id);
                return Some(i);
            }
            i += 1;
        }
        None
    }

    /// Whether some row carries this email.
    fn email_present(store: &Store, email: &String) -> (r: bool)
        ensures
            r == email_taken(store.users_view(), email@),
    {
        let n = store.users.len();
        let mut i: usize = 0;
        while i < n
            invariant
                n == store.users.len(),
                i <= n,
                forall|k: int| 0 <= k < i ==> #[trigger] store.users_view()[k].user.email != email@,
            decreases n - i,
        {
            if store.users[i].user.email == *email {
                assert(store.users_view()[i as int].user.email == email@);
                return true;
            }
            i += 1;
        }
        false
    }

    /// Whether a row other than the one with this identifier carries the
    /// email.
    fn other_email_present(store: &Store, id: u128, email: &String) -> (r: bool)
        ensures
            r == exists|i: int|
                0 <= i < store.users_view().len() && #[trigger] store.users_view()[i].user.email
                    == email@ && store.users_view()[i].user.id != id,
    {
        let n = store.users.len();
        let mut i: usize = 0;
        while i < n
            invariant
                n == store.users.len(),
                i <= n,
                forall|k: int|
                    0 <= k < i ==> !(#[trigger] store.users_view()[k].user.email == email@
                        && store.users_view()[k].user.id != id),
            decreases n - i,
        {
            if store.users[i].user.id != id && store.users[i].user.email == *email {
                assert(store.users_view()[i as int].user.email == email@ && store.users_view()[
                    i as int
                ].user.id != id);
                return true;
            }
            i += 1;
        }
        false
    }
}

} // verus!
