//! Service outcomes as the HTTP boundary reports them: the handler
//! error of each entity, its status code and its user-visible message.
//! The boundary itself (routing, JSON, response bodies) is unverified
//! glue outside this crate; the mapping it applies lives here.

use vstd::prelude::*;

use crate::community_service::CommunityServiceError;
use crate::content_service::ContentServiceError;
use crate::user_service::UserServiceError;

verus! {

/// Failure of a user request.
#[derive(Clone, Copy, PartialEq, Eq, Structural, Debug)]
pub enum UserHandlerError {
    Service(UserServiceError),
    InvalidUuid,
}

impl UserHandlerError {
    /// The HTTP status this failure maps to: absent user 404, registered
    /// email 409, malformed identifier 400, store failure 500.
    pub fn status(&self) -> (r: u16)
        ensures
            r == (match self {
                UserHandlerError::Service(UserServiceError::NotFound) => 404u16,
                UserHandlerError::Service(UserServiceError::EmailExists) => 409u16,
                UserHandlerError::Service(UserServiceError::Database) => 500u16,
                UserHandlerError::InvalidUuid => 400u16,
            }),
    {
        match self {
            UserHandlerError::Service(UserServiceError::NotFound) => 404,
            UserHandlerError::Service(UserServiceError::EmailExists) => 409,
            UserHandlerError::Service(UserServiceError::Database) => 500,
            UserHandlerError::InvalidUuid => 400,
        }
    }

    /// The user-visible message of this failure; never an internal
    /// detail.
    pub fn message(&self) -> (r: String)
        ensures
            r@ == (match self {
                UserHandlerError::Service(UserServiceError::NotFound) => "User not found"@,
                UserHandlerError::Service(UserServiceError::EmailExists) => "Email already exists"@,
                UserHandlerError::Service(UserServiceError::Database) => "Database error"@,
                UserHandlerError::InvalidUuid => "Invalid UUID format"@,
            }),
    {
        match self {
            UserHandlerError::Service(UserServiceError::NotFound) => String::from_str(
                "User not found",
            ),
            UserHandlerError::Service(UserServiceError::EmailExists) => String::from_str(
                "Email already exists",
            ),
            UserHandlerError::Service(UserServiceError::Database) => String::from_str(
                "Database error",
            ),
            UserHandlerError::InvalidUuid => String::from_str("Invalid UUID format"),
        }
    }
}

/// Failure of a community request.
#[derive(Clone, Copy, PartialEq, Eq, Structural, Debug)]
pub enum CommunityHandlerError {
    Service(CommunityServiceError),
}

impl CommunityHandlerError {
    /// The HTTP status this failure maps to: malformed identifier 400,
    /// absent community 404, everything else 500.
    pub fn status(&self) -> (r: u16)
        ensures
            r == (match self {
                CommunityHandlerError::Service(CommunityServiceError::MalformedIdentity) => 400u16,
                CommunityHandlerError::Service(CommunityServiceError::NotFound) => 404u16,
                CommunityHandlerError::Service(CommunityServiceError::IdentityNotFound) => 500u16,
                CommunityHandlerError::Service(CommunityServiceError::Store) => 500u16,
            }),
    {
        match self {
            CommunityHandlerError::Service(CommunityServiceError::MalformedIdentity) => 400,
            CommunityHandlerError::Service(CommunityServiceError::NotFound) => 404,
            CommunityHandlerError::Service(CommunityServiceError::IdentityNotFound) => 500,
            CommunityHandlerError::Service(CommunityServiceError::Store) => 500,
        }
    }

    /// The user-visible message of this failure.
    pub fn message(&self) -> (r: String)
        ensures
            r@ == (match self {
                CommunityHandlerError::Service(CommunityServiceError::MalformedIdentity) => "Invalid UUID format"@,
                CommunityHandlerError::Service(CommunityServiceError::NotFound) => "Community not found"@,
                CommunityHandlerError::Service(CommunityServiceError::IdentityNotFound) => "Failed to get user xid"@,
                CommunityHandlerError::Service(CommunityServiceError::Store) => "Failed to create community"@,
            }),
    {
        match self {
            CommunityHandlerError::Service(CommunityServiceError::MalformedIdentity) => String::from_str(
                "Invalid UUID format",
            ),
            CommunityHandlerError::Service(CommunityServiceError::NotFound) => String::from_str(
                "Community not found",
            ),
            CommunityHandlerError::Service(CommunityServiceError::IdentityNotFound) => String::from_str(
                "Failed to get user xid",
            ),
            CommunityHandlerError::Service(CommunityServiceError::Store) => String::from_str(
                "Failed to create community",
            ),
        }
    }
}

/// Failure of a content request.
#[derive(Clone, Copy, PartialEq, Eq, Structural, Debug)]
pub enum ContentHandlerError {
    Service(ContentServiceError),
    NotFound,
    BadRequest,
}

impl ContentHandlerError {
    /// The HTTP status this failure maps to: absent content 404, a
    /// malformed identifier or missing required field 400, everything
    /// else 500.
    pub fn status(&self) -> (r: u16)
        ensures
            r == (match self {
                ContentHandlerError::Service(ContentServiceError::MalformedIdentity) => 400u16,
                ContentHandlerError::Service(ContentServiceError::Validation) => 400u16,
                ContentHandlerError::Service(ContentServiceError::NotFound) => 404u16,
                ContentHandlerError::Service(ContentServiceError::Store) => 500u16,
                ContentHandlerError::NotFound => 404u16,
                ContentHandlerError::BadRequest => 400u16,
            }),
    {
        match self {
            ContentHandlerError::Service(ContentServiceError::MalformedIdentity) => 400,
            ContentHandlerError::Service(ContentServiceError::Validation) => 400,
            ContentHandlerError::Service(ContentServiceError::NotFound) => 404,
            ContentHandlerError::Service(ContentServiceError::Store) => 500,
            ContentHandlerError::NotFound => 404,
            ContentHandlerError::BadRequest => 400,
        }
    }

    /// The user-visible message of this failure.
    pub fn message(&self) -> (r: String)
        ensures
            r@ == (match self {
                ContentHandlerError::Service(ContentServiceError::MalformedIdentity) => "Invalid UUID format"@,
                ContentHandlerError::Service(ContentServiceError::Validation) => "sender_id is required"@,
                ContentHandlerError::Service(ContentServiceError::NotFound) => "Content not found"@,
                ContentHandlerError::Service(ContentServiceError::Store) => "Failed to create content"@,
                ContentHandlerError::NotFound => "Content not found"@,
                ContentHandlerError::BadRequest => "sender_id is required"@,
            }),
    {
        match self {
            ContentHandlerError::Service(ContentServiceError::MalformedIdentity) => String::from_str(
                "Invalid UUID format",
            ),
            ContentHandlerError::Service(ContentServiceError::Validation) => String::from_str(
                "sender_id is required",
            ),
            ContentHandlerError::Service(ContentServiceError::NotFound) => String::from_str(
                "Content not found",
            ),
            ContentHandlerError::Service(ContentServiceError::Store) => String::from_str(
                "Failed to create content",
            ),
            ContentHandlerError::NotFound => String::from_str("Content not found"),
            ContentHandlerError::BadRequest => String::from_str("sender_id is required"),
        }
    }
}

} // verus!
