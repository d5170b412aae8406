//! Entity records and the request shapes (DTOs) of the create and update
//! operations.
//!
//! Identifiers are held as the 128-bit value of a UUID, timestamps as
//! milliseconds since the epoch, and monetary amounts as a fixed-point
//! mantissa/scale pair; the unverified boundary converts these to and from
//! the wire representations. Each record has a mathematical view (`@`)
//! over which all contracts are stated.

use vstd::prelude::*;

verus! {

/// A fixed-point decimal amount: the represented value is
/// `mantissa / 10^scale`. Only stored and compared, never computed with.
#[derive(Clone, Copy, PartialEq, Eq, Structural, Debug)]
pub struct Amount {
    pub mantissa: i128,
    pub scale: u32,
}

impl Amount {
    /// The zero amount, the default for an omitted bounty.
    pub fn zero() -> (r: Amount)
        ensures
            r == (Amount { mantissa: 0 as i128, scale: 0 as u32 }),
    {
        Amount { mantissa: 0, scale: 0 }
    }
}

/// Clones an optional string, preserving its value.
pub fn clone_opt_string(o: &Option<String>) -> (r: Option<String>)
    ensures
        r == *o,
{
    match o {
        Option::Some(s) => Option::Some(s.clone()),
        Option::None => Option::None,
    }
}

// ---------------------------------------------------------------------------
// User
// ---------------------------------------------------------------------------

/// A user record as handed back to callers (the stored secret is kept
/// separately in the table row and never returned).
#[derive(Debug)]
pub struct User {
    pub id: u128,
    pub xid: String,
    pub username: String,
    pub profile_image_url: Option<String>,
    pub wallet_address: String,
    pub email: String,
    pub created_at: i64,
    pub updated_at: i64,
}

/// Mathematical view of a [`User`].
pub struct UserV {
    pub id: u128,
    pub xid: Seq<char>,
    pub username: Seq<char>,
    pub profile_image_url: Option<Seq<char>>,
    pub wallet_address: Seq<char>,
    pub email: Seq<char>,
    pub created_at: i64,
    pub updated_at: i64,
}

impl View for User {
    type V = UserV;

    open spec fn view(&self) -> UserV {
        UserV {
            id: self.id,
            xid: self.xid@,
            username: self.username@,
            profile_image_url: match self.profile_image_url {
                Option::Some(s) => Option::Some(s@),
                Option::None => Option::None,
            },
            wallet_address: self.wallet_address@,
            email: self.email@,
            created_at: self.created_at,
            updated_at: self.updated_at,
        }
    }
}

impl Clone for User {
    fn clone(&self) -> (r: Self)
        ensures
            r == *self,
    {
        User {
            id: self.id,
            xid: self.xid.clone(),
            username: self.username.clone(),
            profile_image_url: clone_opt_string(&self.profile_image_url),
            wallet_address: self.wallet_address.clone(),
            email: self.email.clone(),
            created_at: self.created_at,
            updated_at: self.updated_at,
        }
    }
}

/// A row of the users table: the returned record plus the stored
/// secret, kept exactly as presented — digesting it before storage is an
/// open gap, so the field does not claim one.
#[derive(Debug)]
pub struct UserRow {
    pub user: User,
    pub password: String,
}

/// Mathematical view of a [`UserRow`].
pub struct UserRowV {
    pub user: UserV,
    pub password: Seq<char>,
}

impl View for UserRow {
    type V = UserRowV;

    open spec fn view(&self) -> UserRowV {
        UserRowV { user: self.user@, password: self.password@ }
    }
}

/// Request shape of a user create.
#[derive(Debug)]
pub struct CreateUserDto {
    pub username: String,
    pub profile_image_url: Option<String>,
    pub wallet_address: String,
    pub email: String,
    pub password: String,
}

/// Request shape of a user update; every field is optional and only the
/// present ones overwrite the stored values.
#[derive(Debug)]
pub struct UpdateUserDto {
    pub username: Option<String>,
    pub profile_image_url: Option<String>,
    pub wallet_address: Option<String>,
    pub email: Option<String>,
    pub password: Option<String>,
}

// ---------------------------------------------------------------------------
// Community
// ---------------------------------------------------------------------------

/// A community record. The creator is stamped by the identity resolver at
/// creation as an (internal id, external id) pair.
#[derive(Debug)]
pub struct Community {
    pub id: u128,
    pub name: String,
    pub description: Option<String>,
    pub created_at: i64,
    pub creator_id: u128,
    pub creator_xid: String,
    pub last_message_time: Option<i64>,
    pub contract_address: Option<String>,
    pub bounty_amount: Amount,
    pub time_limit: Option<i32>,
    /// The optional fee percentage, carried opaquely as the bit pattern
    /// of its 32-bit float; stored and merged, never interpreted here.
    pub base_fee_bits: Option<u32>,
    pub wallet_address: Option<String>,
    pub image_url: Option<String>,
}

/// Mathematical view of a [`Community`].
pub struct CommunityV {
    pub id: u128,
    pub name: Seq<char>,
    pub description: Option<Seq<char>>,
    pub created_at: i64,
    pub creator_id: u128,
    pub creator_xid: Seq<char>,
    pub last_message_time: Option<i64>,
    pub contract_address: Option<Seq<char>>,
    pub bounty_amount: Amount,
    pub time_limit: Option<i32>,
    pub base_fee_bits: Option<u32>,
    pub wallet_address: Option<Seq<char>>,
    pub image_url: Option<Seq<char>>,
}

pub open spec fn view_opt_string(o: Option<String>) -> Option<Seq<char>> {
    match o {
        Option::Some(s) => Option::Some(s@),
        Option::None => Option::None,
    }
}

impl View for Community {
    type V = CommunityV;

    open spec fn view(&self) -> CommunityV {
        CommunityV {
            id: self.id,
            name: self.name@,
            description: view_opt_string(self.description),
            created_at: self.created_at,
            creator_id: self.creator_id,
            creator_xid: self.creator_xid@,
            last_message_time: self.last_message_time,
            contract_address: view_opt_string(self.contract_address),
            bounty_amount: self.bounty_amount,
            time_limit: self.time_limit,
            base_fee_bits: self.base_fee_bits,
            wallet_address: view_opt_string(self.wallet_address),
            image_url: view_opt_string(self.image_url),
        }
    }
}

impl Clone for Community {
    fn clone(&self) -> (r: Self)
        ensures
            r == *self,
    {
        Community {
            id: self.id,
            name: self.name.clone(),
            description: clone_opt_string(&self.description),
            created_at: self.created_at,
            creator_id: self.creator_id,
            creator_xid: self.creator_xid.clone(),
            last_message_time: self.last_message_time,
            contract_address: clone_opt_string(&self.contract_address),
            bounty_amount: self.bounty_amount,
            time_limit: self.time_limit,
            base_fee_bits: self.base_fee_bits,
            wallet_address: clone_opt_string(&self.wallet_address),
            image_url: clone_opt_string(&self.image_url),
        }
    }
}

/// Request shape of a community create. The creator pair is stamped by the
/// service after identity resolution, never trusted from the caller.
#[derive(Debug)]
pub struct CreateCommunityDto {
    pub name: String,
    pub description: Option<String>,
    pub creator_id: Option<u128>,
    pub creator_xid: Option<String>,
    pub contract_address: Option<String>,
    pub bounty_amount: Option<Amount>,
    pub time_limit: Option<i32>,
    pub base_fee_bits: Option<u32>,
    pub wallet_address: Option<String>,
    pub image_url: Option<String>,
}

/// Request shape of a community update; present fields overwrite, absent
/// fields are preserved.
#[derive(Debug)]
pub struct UpdateCommunityDto {
    pub name: Option<String>,
    pub description: Option<String>,
    pub last_message_time: Option<i64>,
    pub contract_address: Option<String>,
    pub bounty_amount: Option<Amount>,
    pub time_limit: Option<i32>,
    pub base_fee_bits: Option<u32>,
    pub wallet_address: Option<String>,
    pub image_url: Option<String>,
}

// ---------------------------------------------------------------------------
// Content
// ---------------------------------------------------------------------------

/// A content record (a message posted into a community). The sender triple
/// is stamped at creation from the identity resolver.
#[derive(Debug)]
pub struct Content {
    pub id: u128,
    pub content: String,
    pub created_at: i64,
    pub sender_id: u128,
    pub sender_xid: String,
    pub image_url: Option<String>,
    pub community_id: u128,
    pub wallet_address: String,
}

/// Mathematical view of a [`Content`].
pub struct ContentV {
    pub id: u128,
    pub content: Seq<char>,
    pub created_at: i64,
    pub sender_id: u128,
    pub sender_xid: Seq<char>,
    pub image_url: Option<Seq<char>>,
    pub community_id: u128,
    pub wallet_address: Seq<char>,
}

impl View for Content {
    type V = ContentV;

    open spec fn view(&self) -> ContentV {
        ContentV {
            id: self.id,
            content: self.content@,
            created_at: self.created_at,
            sender_id: self.sender_id,
            sender_xid: self.sender_xid@,
            image_url: view_opt_string(self.image_url),
            community_id: self.community_id,
            wallet_address: self.wallet_address@,
        }
    }
}

impl Clone for Content {
    fn clone(&self) -> (r: Self)
        ensures
            r == *self,
    {
        Content {
            id: self.id,
            content: self.content.clone(),
            created_at: self.created_at,
            sender_id: self.sender_id,
            sender_xid: self.sender_xid.clone(),
            image_url: clone_opt_string(&self.image_url),
            community_id: self.community_id,
            wallet_address: self.wallet_address.clone(),
        }
    }
}

/// Request shape of a content create. The sender fields are overwritten by
/// the service from the resolved identity; `community_id` must name an
/// existing community for the listing invariants to be useful, but is not
/// checked before the insert.
#[derive(Debug)]
pub struct CreateContentDto {
    pub content: String,
    pub sender_id: Option<u128>,
    pub sender_xid: Option<String>,
    pub image_url: Option<String>,
    pub community_id: u128,
    pub wallet_address: Option<String>,
}

// ---------------------------------------------------------------------------
// Depositor
// ---------------------------------------------------------------------------

/// A deposit of a user into a community; a join record with no lifecycle
/// logic of its own.
#[derive(Debug)]
pub struct Depositor {
    pub id: u128,
    pub user_id: String,
    pub community_id: String,
    pub amount: Amount,
    pub wallet_address: Option<String>,
    pub deposited_at: i64,
}

} // verus!
