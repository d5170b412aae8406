//! The identity resolver: from a caller-supplied principal string to the
//! canonical identity of the acting user.

use vstd::prelude::*;

use crate::ids::{parse_uuid, parsed_uuid};
use crate::model::User;
use crate::store::Store;
use crate::table::find_row;
use crate::user_repository::UserRepository;

verus! {

/// The canonical identity of a principal: the durable internal
/// identifier, the public external identifier, and the wallet address,
/// all read from the user's record.
#[derive(Debug)]
pub struct Principal {
    pub id: u128,
    pub xid: String,
    pub wallet_address: String,
}

/// Why a principal string failed to resolve.
#[derive(Clone, Copy, PartialEq, Eq, Structural, Debug)]
pub enum IdentityError {
    /// The string does not parse as an internal identifier.
    Malformed,
    /// The parsed identifier has no corresponding user record.
    NotFound,
}

/// Resolves a principal string: parses it as an internal identifier and
/// reads the canonical identity from the matching user record. A string
/// that does not parse is malformed; a parsed identifier without a record
/// is not found. Read-only.
pub fn resolve_principal(store: &Store, principal: &str) -> (r: Result<Principal, IdentityError>)
    ensures
        match parsed_uuid(principal@) {
            Option::None => r matches Result::Err(e) && e == IdentityError::Malformed,
            Option::Some(n) => match find_row(store.users_view(), n) {
                Option::None => r matches Result::Err(e) && e == IdentityError::NotFound,
                Option::Some(row) => r matches Result::Ok(p) && p.id == n && p.xid@ == row.user.xid
                    && p.wallet_address@ == row.user.wallet_address,
            },
        },
{
    let n = match parse_uuid(principal) {
        Option::Some(n) => n,
        Option::None => {
            return Err(IdentityError::Malformed);
        },
    };
    proof {
        crate::table::lemma_find_row_spec(store.users_view(), n);
    }
    let user: User = match UserRepository::find_by_id(store, n) {
        Option::Some(u) => u,
        Option::None => {
            return Err(IdentityError::NotFound);
        },
    };
    Ok(Principal { id: user.id, xid: user.xid, wallet_address: user.wallet_address })
}

} // verus!
