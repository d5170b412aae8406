use pulse_core::community_service::{CommunityService, CommunityServiceError};
use pulse_core::model::{Amount, CreateCommunityDto, CreateUserDto, UpdateCommunityDto};
use pulse_core::store::Store;
use pulse_core::user_service::UserService;

fn creator(store: &mut Store) -> (u128, String) {
    let u = UserService::create_user(
        store,
        CreateUserDto {
            username: String::from("carol"),
            profile_image_url: None,
            wallet_address: String::from("0xccc"),
            email: String::from("c@x.com"),
            password: String::from("pw"),
        },
    )
    .expect("create user");
    let principal = uuid::Uuid::from_u128(u.id).to_string();
    (u.id, principal)
}

fn community_dto(name: &str) -> CreateCommunityDto {
    CreateCommunityDto {
        name: String::from(name),
        description: Some(String::from("d")),
        creator_id: None,
        creator_xid: None,
        contract_address: None,
        bounty_amount: None,
        time_limit: Some(7),
        base_fee_bits: None,
        wallet_address: None,
        image_url: None,
    }
}

#[test]
fn create_stamps_creator_and_defaults_bounty() {
    let mut store = Store::new();
    let (uid, principal) = creator(&mut store);
    let c = CommunityService::create_community(&mut store, &principal, community_dto("rust"))
        .expect("create community");
    assert_eq!(c.creator_id, uid);
    assert_eq!(c.creator_xid, principal);
    assert_eq!(c.name, "rust");
    assert_eq!(c.description.as_deref(), Some("d"));
    assert_eq!(c.bounty_amount, Amount { mantissa: 0, scale: 0 });
    assert_eq!(c.last_message_time, None);
    assert_eq!(c.time_limit, Some(7));
    let got = CommunityService::get_community_by_id(&store, c.id).expect("get");
    assert_eq!(got.name, "rust");
    assert_eq!(got.creator_id, uid);
}

#[test]
fn create_passes_an_explicit_bounty_through() {
    let mut store = Store::new();
    let (_uid, principal) = creator(&mut store);
    let mut dto = community_dto("paid");
    dto.bounty_amount = Some(Amount { mantissa: 12345, scale: 2 });
    let c = CommunityService::create_community(&mut store, &principal, dto).expect("create");
    assert_eq!(c.bounty_amount, Amount { mantissa: 12345, scale: 2 });
}

#[test]
fn create_refuses_malformed_principal() {
    let mut store = Store::new();
    let r = CommunityService::create_community(&mut store, "not-a-uuid", community_dto("x"));
    assert_eq!(r.unwrap_err(), CommunityServiceError::MalformedIdentity);
    assert!(CommunityService::get_all_communities(&store).unwrap().is_empty());
}

#[test]
fn create_refuses_unknown_principal() {
    let mut store = Store::new();
    let unknown = uuid::Uuid::from_u128(99).to_string();
    let r = CommunityService::create_community(&mut store, &unknown, community_dto("x"));
    assert_eq!(r.unwrap_err(), CommunityServiceError::IdentityNotFound);
    assert!(CommunityService::get_all_communities(&store).unwrap().is_empty());
}

#[test]
fn update_merges_and_keeps_absent_fields() {
    let mut store = Store::new();
    let (_uid, principal) = creator(&mut store);
    let c = CommunityService::create_community(&mut store, &principal, community_dto("old-name"))
        .expect("create");
    let patch = UpdateCommunityDto {
        name: Some(String::from("new")),
        description: None,
        last_message_time: None,
        contract_address: None,
        bounty_amount: None,
        time_limit: None,
        base_fee_bits: None,
        wallet_address: None,
        image_url: None,
    };
    let updated = CommunityService::update_community(&mut store, c.id, patch).expect("some");
    assert_eq!(updated.name, "new");
    assert_eq!(updated.description.as_deref(), Some("d"));
    assert_eq!(updated.time_limit, Some(7));
    assert_eq!(updated.created_at, c.created_at);
    let got = CommunityService::get_community_by_id(&store, c.id).expect("get");
    assert_eq!(got.name, "new");
    assert_eq!(got.description.as_deref(), Some("d"));
}

#[test]
fn update_missing_community_is_none() {
    let mut store = Store::new();
    let patch = UpdateCommunityDto {
        name: Some(String::from("new")),
        description: None,
        last_message_time: None,
        contract_address: None,
        bounty_amount: None,
        time_limit: None,
        base_fee_bits: None,
        wallet_address: None,
        image_url: None,
    };
    assert!(CommunityService::update_community(&mut store, 5, patch).is_none());
}

#[test]
fn delete_then_delete_again_community() {
    let mut store = Store::new();
    let (_uid, principal) = creator(&mut store);
    let c = CommunityService::create_community(&mut store, &principal, community_dto("gone"))
        .expect("create");
    assert!(CommunityService::delete_community(&mut store, c.id).is_ok());
    let again = CommunityService::delete_community(&mut store, c.id);
    assert_eq!(again.unwrap_err(), CommunityServiceError::NotFound);
}

#[test]
fn list_by_creator_returns_only_theirs() {
    let mut store = Store::new();
    let (uid_a, principal_a) = creator(&mut store);
    let ub = UserService::create_user(
        &mut store,
        CreateUserDto {
            username: String::from("dave"),
            profile_image_url: None,
            wallet_address: String::from("0xddd"),
            email: String::from("dv@x.com"),
            password: String::from("pw"),
        },
    )
    .expect("user b");
    let principal_b = uuid::Uuid::from_u128(ub.id).to_string();
    let c1 = CommunityService::create_community(&mut store, &principal_a, community_dto("one"))
        .expect("c1");
    let _c2 = CommunityService::create_community(&mut store, &principal_b, community_dto("two"))
        .expect("c2");
    let mine = CommunityService::get_communities_by_creator(&store, uid_a);
    assert_eq!(mine.len(), 1);
    assert_eq!(mine[0].id, c1.id);
    assert_eq!(mine[0].creator_id, uid_a);
}

#[test]
fn touch_sets_last_activity() {
    let mut store = Store::new();
    let (_uid, principal) = creator(&mut store);
    let c = CommunityService::create_community(&mut store, &principal, community_dto("live"))
        .expect("create");
    assert_eq!(c.last_message_time, None);
    assert!(CommunityService::touch_last_message_time(&mut store, c.id));
    let got = CommunityService::get_community_by_id(&store, c.id).expect("get");
    assert!(got.last_message_time.is_some());
    assert!(!CommunityService::touch_last_message_time(&mut store, 424242));
}
