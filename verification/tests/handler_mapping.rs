use pulse_core::community_service::CommunityServiceError;
use pulse_core::content_service::ContentServiceError;
use pulse_core::handler::{CommunityHandlerError, ContentHandlerError, UserHandlerError};
use pulse_core::identity::{resolve_principal, IdentityError};
use pulse_core::model::CreateUserDto;
use pulse_core::store::Store;
use pulse_core::user_service::{UserService, UserServiceError};

#[test]
fn user_errors_map_to_status_and_message() {
    let not_found = UserHandlerError::Service(UserServiceError::NotFound);
    assert_eq!(not_found.status(), 404);
    assert_eq!(not_found.message(), "User not found");
    let conflict = UserHandlerError::Service(UserServiceError::EmailExists);
    assert_eq!(conflict.status(), 409);
    assert_eq!(conflict.message(), "Email already exists");
    let db = UserHandlerError::Service(UserServiceError::Database);
    assert_eq!(db.status(), 500);
    assert_eq!(db.message(), "Database error");
    let bad = UserHandlerError::InvalidUuid;
    assert_eq!(bad.status(), 400);
    assert_eq!(bad.message(), "Invalid UUID format");
}

#[test]
fn community_errors_map_to_status() {
    let malformed = CommunityHandlerError::Service(CommunityServiceError::MalformedIdentity);
    assert_eq!(malformed.status(), 400);
    assert_eq!(malformed.message(), "Invalid UUID format");
    let unresolved = CommunityHandlerError::Service(CommunityServiceError::IdentityNotFound);
    assert_eq!(unresolved.status(), 500);
    let missing = CommunityHandlerError::Service(CommunityServiceError::NotFound);
    assert_eq!(missing.status(), 404);
    assert_eq!(missing.message(), "Community not found");
    let store = CommunityHandlerError::Service(CommunityServiceError::Store);
    assert_eq!(store.status(), 500);
}

#[test]
fn content_errors_map_to_status() {
    let missing = ContentHandlerError::NotFound;
    assert_eq!(missing.status(), 404);
    assert_eq!(missing.message(), "Content not found");
    let bad = ContentHandlerError::BadRequest;
    assert_eq!(bad.status(), 400);
    assert_eq!(bad.message(), "sender_id is required");
    let validation = ContentHandlerError::Service(ContentServiceError::Validation);
    assert_eq!(validation.status(), 400);
    let malformed = ContentHandlerError::Service(ContentServiceError::MalformedIdentity);
    assert_eq!(malformed.status(), 400);
    let store = ContentHandlerError::Service(ContentServiceError::Store);
    assert_eq!(store.status(), 500);
}

#[test]
fn resolver_is_read_only_and_exact() {
    let mut store = Store::new();
    let u = UserService::create_user(
        &mut store,
        CreateUserDto {
            username: String::from("frank"),
            profile_image_url: None,
            wallet_address: String::from("0xf"),
            email: String::from("f@x.com"),
            password: String::from("pw"),
        },
    )
    .expect("user");
    let principal = uuid::Uuid::from_u128(u.id).to_string();
    let p = resolve_principal(&store, &principal).expect("resolved");
    assert_eq!(p.id, u.id);
    assert_eq!(p.xid, u.xid);
    assert_eq!(p.wallet_address, "0xf");
    assert_eq!(
        resolve_principal(&store, "garbage").unwrap_err(),
        IdentityError::Malformed
    );
    let unknown = uuid::Uuid::from_u128(123456).to_string();
    assert_eq!(
        resolve_principal(&store, &unknown).unwrap_err(),
        IdentityError::NotFound
    );
    // two creations draw distinct identifiers
    let v = UserService::create_user(
        &mut store,
        CreateUserDto {
            username: String::from("grace"),
            profile_image_url: None,
            wallet_address: String::from("0xg"),
            email: String::from("g@x.com"),
            password: String::from("pw"),
        },
    )
    .expect("user 2");
    assert_ne!(u.id, v.id);
}
