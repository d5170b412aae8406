use pulse_core::identity::IdentityError;
use pulse_core::model::{CreateUserDto, UpdateUserDto};
use pulse_core::store::Store;
use pulse_core::user_repository::UserRepository;
use pulse_core::user_service::{UserService, UserServiceError};

fn alice() -> CreateUserDto {
    CreateUserDto {
        username: String::from("alice"),
        profile_image_url: Some(String::from("http://img/alice.png")),
        wallet_address: String::from("0xabc"),
        email: String::from("a@x.com"),
        password: String::from("secret"),
    }
}

#[test]
fn create_then_get_echoes_fields() {
    let mut store = Store::new();
    let u = UserService::create_user(&mut store, alice()).expect("create");
    assert_eq!(u.username, "alice");
    assert_eq!(u.email, "a@x.com");
    assert_eq!(u.wallet_address, "0xabc");
    assert_eq!(u.profile_image_url.as_deref(), Some("http://img/alice.png"));
    // server-assigned fields are present
    assert_eq!(u.created_at, u.updated_at);
    assert!(u.created_at > 1_000_000_000_000); // a real clock instant
    assert_ne!(u.id, 0);
    let again = UserService::get_user_by_id(&store, u.id).expect("get");
    assert_eq!(again.id, u.id);
    assert_eq!(again.xid, u.xid);
    assert_eq!(again.username, u.username);
    assert_eq!(again.email, u.email);
    assert_eq!(again.wallet_address, u.wallet_address);
    assert_eq!(again.profile_image_url, u.profile_image_url);
    assert_eq!(again.created_at, u.created_at);
    assert_eq!(again.updated_at, u.updated_at);
}

#[test]
fn xid_is_derived_from_id() {
    let mut store = Store::new();
    let u = UserService::create_user(&mut store, alice()).expect("create");
    assert_eq!(u.xid, uuid::Uuid::from_u128(u.id).to_string());
}

#[test]
fn duplicate_email_conflicts_exactly_once() {
    let mut store = Store::new();
    let first = UserService::create_user(&mut store, alice());
    assert!(first.is_ok());
    let mut second_dto = alice();
    second_dto.username = String::from("someone-else");
    let second = UserService::create_user(&mut store, second_dto);
    assert_eq!(second.unwrap_err(), UserServiceError::EmailExists);
    // a different email is fine
    let mut third_dto = alice();
    third_dto.email = String::from("b@x.com");
    assert!(UserService::create_user(&mut store, third_dto).is_ok());
}

#[test]
fn update_merges_only_present_fields() {
    let mut store = Store::new();
    let u = UserService::create_user(&mut store, alice()).expect("create");
    let patch = UpdateUserDto {
        username: Some(String::from("alice2")),
        profile_image_url: None,
        wallet_address: None,
        email: None,
        password: None,
    };
    let updated = UserService::update_user(&mut store, u.id, patch).expect("update");
    assert_eq!(updated.username, "alice2");
    assert_eq!(updated.email, "a@x.com");
    assert_eq!(updated.wallet_address, "0xabc");
    assert_eq!(updated.profile_image_url.as_deref(), Some("http://img/alice.png"));
    assert_eq!(updated.created_at, u.created_at);
    assert_eq!(updated.updated_at, u.updated_at);
    let got = UserService::get_user_by_id(&store, u.id).expect("get");
    assert_eq!(got.username, "alice2");
    assert_eq!(got.email, "a@x.com");
}

#[test]
fn update_missing_user_is_not_found() {
    let mut store = Store::new();
    let patch = UpdateUserDto {
        username: Some(String::from("x")),
        profile_image_url: None,
        wallet_address: None,
        email: None,
        password: None,
    };
    let r = UserService::update_user(&mut store, 42, patch);
    assert_eq!(r.unwrap_err(), UserServiceError::NotFound);
}

#[test]
fn update_onto_taken_email_is_refused() {
    let mut store = Store::new();
    let a = UserService::create_user(&mut store, alice()).expect("create a");
    let mut b_dto = alice();
    b_dto.email = String::from("b@x.com");
    let b = UserService::create_user(&mut store, b_dto).expect("create b");
    let patch = UpdateUserDto {
        username: None,
        profile_image_url: None,
        wallet_address: None,
        email: Some(String::from("a@x.com")),
        password: None,
    };
    let r = UserService::update_user(&mut store, b.id, patch);
    assert_eq!(r.unwrap_err(), UserServiceError::Database);
    // the row kept its email
    let got = UserService::get_user_by_id(&store, b.id).expect("get");
    assert_eq!(got.email, "b@x.com");
    let _ = a;
}

#[test]
fn delete_then_delete_again() {
    let mut store = Store::new();
    let u = UserService::create_user(&mut store, alice()).expect("create");
    assert!(UserService::delete_user(&mut store, u.id).is_ok());
    let second = UserService::delete_user(&mut store, u.id);
    assert_eq!(second.unwrap_err(), UserServiceError::NotFound);
    assert_eq!(
        UserService::get_user_by_id(&store, u.id).unwrap_err(),
        UserServiceError::NotFound
    );
}

#[test]
fn lookup_by_email_and_listing() {
    let mut store = Store::new();
    let u = UserService::create_user(&mut store, alice()).expect("create");
    let by_email = UserService::get_user_by_email(&store, &String::from("a@x.com")).expect("get");
    assert_eq!(by_email.id, u.id);
    let missing = UserService::get_user_by_email(&store, &String::from("nobody@x.com"));
    assert_eq!(missing.unwrap_err(), UserServiceError::NotFound);
    let all = UserService::get_all_users(&store).expect("list");
    assert_eq!(all.len(), 1);
    assert_eq!(all[0].id, u.id);
}

#[test]
fn get_xid_by_id_resolves_the_string_form() {
    let mut store = Store::new();
    let u = UserService::create_user(&mut store, alice()).expect("create");
    let principal = uuid::Uuid::from_u128(u.id).to_string();
    let xid = UserRepository::get_xid_by_id(&store, &principal).expect("resolved");
    assert_eq!(xid, u.xid);
    assert_eq!(
        UserRepository::get_xid_by_id(&store, "not-a-uuid").unwrap_err(),
        IdentityError::Malformed
    );
    let unknown = uuid::Uuid::from_u128(777).to_string();
    assert_eq!(
        UserRepository::get_xid_by_id(&store, &unknown).unwrap_err(),
        IdentityError::NotFound
    );
}
