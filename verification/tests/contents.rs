use pulse_core::community_service::CommunityService;
use pulse_core::content_service::{ContentService, ContentServiceError};
use pulse_core::model::{CreateCommunityDto, CreateContentDto, CreateUserDto};
use pulse_core::store::Store;
use pulse_core::user_service::UserService;

fn setup_user(store: &mut Store, email: &str) -> (u128, String) {
    let u = UserService::create_user(
        store,
        CreateUserDto {
            username: String::from("eve"),
            profile_image_url: None,
            wallet_address: String::from("0xeee"),
            email: String::from(email),
            password: String::from("pw"),
        },
    )
    .expect("user");
    let principal = uuid::Uuid::from_u128(u.id).to_string();
    (u.id, principal)
}

fn setup_community(store: &mut Store, principal: &str) -> u128 {
    CommunityService::create_community(
        store,
        principal,
        CreateCommunityDto {
            name: String::from("room"),
            description: Some(String::from("d")),
            creator_id: None,
            creator_xid: None,
            contract_address: None,
            bounty_amount: None,
            time_limit: None,
            base_fee_bits: None,
            wallet_address: None,
            image_url: None,
        },
    )
    .expect("community")
    .id
}

fn message(community_id: u128, text: &str) -> CreateContentDto {
    CreateContentDto {
        content: String::from(text),
        sender_id: None,
        sender_xid: None,
        image_url: None,
        community_id,
        wallet_address: None,
    }
}

#[test]
fn create_stamps_sender_from_resolved_principal() {
    let mut store = Store::new();
    let (uid, principal) = setup_user(&mut store, "e@x.com");
    let cid = setup_community(&mut store, &principal);
    let m = ContentService::create_content(&mut store, &principal, message(cid, "hi"))
        .expect("content");
    assert_eq!(m.sender_id, uid);
    assert_eq!(m.sender_xid, principal);
    assert_eq!(m.wallet_address, "0xeee");
    assert_eq!(m.content, "hi");
    assert_eq!(m.community_id, cid);
}

#[test]
fn create_with_unknown_principal_degrades_to_sentinels() {
    let mut store = Store::new();
    let (_uid, principal) = setup_user(&mut store, "e@x.com");
    let cid = setup_community(&mut store, &principal);
    let stranger = uuid::Uuid::from_u128(555).to_string();
    let m = ContentService::create_content(&mut store, &stranger, message(cid, "anon"))
        .expect("content");
    assert_eq!(m.sender_id, 0);
    assert_eq!(m.sender_xid, stranger);
    assert_eq!(m.wallet_address, "");
    assert_eq!(m.content, "anon");
}

#[test]
fn create_with_malformed_principal_is_refused() {
    let mut store = Store::new();
    let (_uid, principal) = setup_user(&mut store, "e@x.com");
    let cid = setup_community(&mut store, &principal);
    let r = ContentService::create_content(&mut store, "zzz", message(cid, "nope"));
    assert_eq!(r.unwrap_err(), ContentServiceError::MalformedIdentity);
    assert!(ContentService::get_all_contents(&store).unwrap().is_empty());
}

#[test]
fn sender_principal_requires_a_sender() {
    let absent = CreateContentDto {
        content: String::from("x"),
        sender_id: None,
        sender_xid: None,
        image_url: None,
        community_id: 1,
        wallet_address: None,
    };
    assert_eq!(
        ContentService::sender_principal(&absent).unwrap_err(),
        ContentServiceError::Validation
    );
    let present = CreateContentDto { sender_id: Some(7), ..absent };
    let principal = ContentService::sender_principal(&present).expect("principal");
    assert_eq!(principal, uuid::Uuid::from_u128(7).to_string());
}

#[test]
fn list_by_community_filters_and_orders_newest_first() {
    let mut store = Store::new();
    let (_uid, principal) = setup_user(&mut store, "e@x.com");
    let cid_a = setup_community(&mut store, &principal);
    let cid_b = setup_community(&mut store, &principal);
    let m1 = ContentService::create_content(&mut store, &principal, message(cid_a, "first"))
        .expect("m1");
    let m2 = ContentService::create_content(&mut store, &principal, message(cid_b, "other"))
        .expect("m2");
    let m3 = ContentService::create_content(&mut store, &principal, message(cid_a, "second"))
        .expect("m3");
    let listing = ContentService::get_contents_by_community(
        &store,
        &uuid::Uuid::from_u128(cid_a).to_string(),
    )
    .expect("listing");
    assert_eq!(listing.len(), 2);
    for c in &listing {
        assert_eq!(c.community_id, cid_a);
    }
    let ids: Vec<u128> = listing.iter().map(|c| c.id).collect();
    assert!(ids.contains(&m1.id));
    assert!(ids.contains(&m3.id));
    assert!(!ids.contains(&m2.id));
    for w in listing.windows(2) {
        assert!(w[0].created_at >= w[1].created_at);
    }
    let all = ContentService::get_all_contents(&store).expect("all");
    assert_eq!(all.len(), 3);
    for w in all.windows(2) {
        assert!(w[0].created_at >= w[1].created_at);
    }
}

#[test]
fn whole_flow_updates_last_activity() {
    // create user, their community, a message into it: the listing holds
    // exactly the message and the community's last activity has caught up
    // with the message's creation instant.
    let mut store = Store::new();
    let (uid, principal) = setup_user(&mut store, "a@x.com");
    let cid = setup_community(&mut store, &principal);
    let m = ContentService::create_content(&mut store, &principal, message(cid, "hello"))
        .expect("content");
    assert_eq!(m.sender_id, uid);
    let listing = ContentService::get_contents_by_community(
        &store,
        &uuid::Uuid::from_u128(cid).to_string(),
    )
    .expect("listing");
    assert_eq!(listing.len(), 1);
    assert_eq!(listing[0].id, m.id);
    let community = CommunityService::get_community_by_id(&store, cid).expect("community");
    let last = community.last_message_time.expect("touched");
    assert!(last >= m.created_at);
}

#[test]
fn create_into_missing_community_is_a_store_error() {
    // the service does not pre-check the community; the store's
    // foreign-key constraint refuses the dangling reference as a
    // store-level error, not a domain not-found, and keeps no row.
    let mut store = Store::new();
    let (_uid, principal) = setup_user(&mut store, "e@x.com");
    let r = ContentService::create_content(&mut store, &principal, message(31337, "dangling"));
    assert_eq!(r.unwrap_err(), ContentServiceError::Store);
    assert!(ContentService::get_all_contents(&store).expect("all").is_empty());
    assert!(CommunityService::get_all_communities(&store).unwrap().is_empty());
}

#[test]
fn get_and_delete_content_by_string_id() {
    let mut store = Store::new();
    let (_uid, principal) = setup_user(&mut store, "e@x.com");
    let cid = setup_community(&mut store, &principal);
    let m = ContentService::create_content(&mut store, &principal, message(cid, "bye"))
        .expect("content");
    let mid = uuid::Uuid::from_u128(m.id).to_string();
    let got = ContentService::get_content_by_id(&store, &mid).expect("ok").expect("some");
    assert_eq!(got.id, m.id);
    assert_eq!(got.content, "bye");
    assert_eq!(
        ContentService::get_content_by_id(&store, "oops").unwrap_err(),
        ContentServiceError::MalformedIdentity
    );
    assert!(ContentService::delete_content(&mut store, &mid).is_ok());
    let again = ContentService::delete_content(&mut store, &mid);
    assert_eq!(again.unwrap_err(), ContentServiceError::NotFound);
    assert!(ContentService::get_content_by_id(&store, &mid).expect("ok").is_none());
}
