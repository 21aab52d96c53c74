use qamaits::configuration::{Configuration, EmailConfig, OauthConfig, OauthWrapper, ServerConfig, DB};
use qamaits::database::DatabaseController;
use qamaits::errors::DatabaseError;
use qamaits::request::RequestData;
use qamaits::structures::User;

const HOUR_MILLIS: u64 = 3600000;
const DAY_MILLIS: u64 = 86400000;

fn provider_config(name: &str) -> OauthConfig {
    OauthConfig {
        name: name.to_string(),
        client_id: "client-id".to_string(),
        client_secret: "the-client-secret".to_string(),
        auth_url: "https://accounts.example.com/o/oauth2/auth".to_string(),
        token_url: "https://oauth2.example.com/token".to_string(),
        scope: vec!["https://mail.example.com/send".to_string()],
        api_key: "api-key".to_string(),
        access_token: None,
        refresh_token: None,
        id: None,
    }
}

fn test_configuration() -> Configuration {
    Configuration {
        database: DB {
            uri: "mongodb://localhost:27017".to_string(),
            name: "identity".to_string(),
            collections: None,
        },
        server: ServerConfig {
            address: "127.0.0.1".to_string(),
            port: 443,
            hostname: "example.org".to_string(),
            access_log: "access.log".to_string(),
            tls_key: "key.pem".to_string(),
            tls_cert: "cert.pem".to_string(),
        },
        oauth: OauthWrapper { auths: vec![provider_config("gmail")] },
        email: EmailConfig {
            from_address: "noreply@example.org".to_string(),
            provider: "gmail".to_string(),
        },
    }
}

fn seeded_store(now: u64) -> DatabaseController {
    let mut store = DatabaseController::new();
    let id = store
        .add_oauth_record(provider_config("gmail"), now)
        .expect("seeding the provider record must succeed")
        .expect("the provider record gets an id");
    assert_eq!(id.len(), 24);
    store
}

fn registration(username: &str, email: &str) -> RequestData {
    let mut data = RequestData::new();
    data.push_field("password".to_string(), "hunter2 pass".to_string());
    data.push_field("username".to_string(), username.to_string());
    data.push_field("email".to_string(), email.to_string());
    data
}

fn register(store: &mut DatabaseController, username: &str, email: &str, now: u64) -> User {
    let data = registration(username, email);
    store
        .register_user("subscriber".to_string(), &data, &test_configuration(), now)
        .expect("registration must succeed")
        .expect("the provider record is seeded, so the user is returned")
}

#[test]
fn register_creates_unverified_user() {
    let now = 1000;
    let mut store = seeded_store(now);
    let objects_before = store.objects.len();
    let user = register(&mut store, "alice", "alice@example.com", now);
    assert_eq!(user.username, "alice");
    assert_eq!(user.email, "alice@example.com");
    assert_eq!(user.access_level, "subscriber");
    assert_eq!(user.id.len(), 24);
    assert!(user.access_record.is_none());
    let verify = user.verify.expect("fresh users carry verification state");
    assert!(!verify.verified);
    assert_eq!(verify.verify_token.len(), 256);
    assert_eq!(verify.verify_code.len(), 6);
    assert_eq!(verify.expiration_time, now + DAY_MILLIS);
    assert!(verify.verify_time.is_none());
    assert_ne!(user.password, "hunter2 pass");
    assert_eq!(store.users.len(), 1);
    assert_eq!(store.objects.len(), objects_before + 1);
    assert_eq!(store.objects[objects_before].the_type, "user");
    assert_eq!(store.objects[objects_before].id, user.id);
}

#[test]
fn register_duplicate_username_already_exists() {
    let now = 1000;
    let mut store = seeded_store(now);
    register(&mut store, "alice", "alice@example.com", now);
    let data = registration("alice", "other@example.com");
    let objects_before = store.objects.len();
    match store.register_user("subscriber".to_string(), &data, &test_configuration(), now) {
        Err(DatabaseError::AlreadyExistsError(e)) => {
            assert_eq!(e.details, "There is already someone wth that username");
            assert_eq!(e.code, 3);
        }
        other => panic!("expected AlreadyExistsError, got {:?}", other),
    }
    assert_eq!(store.users.len(), 1, "no duplicate record is persisted");
    assert_eq!(store.objects.len(), objects_before, "no orphaned object id");
}

#[test]
fn register_duplicate_email_already_exists() {
    let now = 1000;
    let mut store = seeded_store(now);
    register(&mut store, "alice", "alice@example.com", now);
    let data = registration("bob", "alice@example.com");
    match store.register_user("subscriber".to_string(), &data, &test_configuration(), now) {
        Err(DatabaseError::AlreadyExistsError(e)) => {
            assert_eq!(e.details, "There is already an account with that email address");
        }
        other => panic!("expected AlreadyExistsError, got {:?}", other),
    }
    assert_eq!(store.users.len(), 1);
}

#[test]
fn register_invalid_email_leaves_no_record() {
    let now = 1000;
    let mut store = seeded_store(now);
    let objects_before = store.objects.len();
    let data = registration("alice", "not-an-email");
    match store.register_user("subscriber".to_string(), &data, &test_configuration(), now) {
        Err(DatabaseError::InvalidCredentialsError(e)) => {
            assert_eq!(e.details, "This is an invalid email address");
            assert_eq!(e.code, 1);
        }
        other => panic!("expected InvalidCredentialsError, got {:?}", other),
    }
    assert_eq!(store.users.len(), 0, "no user record is created");
    assert_eq!(store.objects.len(), objects_before, "no orphaned object id is created");
}

#[test]
fn register_missing_required_field() {
    let now = 1000;
    let mut store = seeded_store(now);
    let mut data = RequestData::new();
    data.push_field("username".to_string(), "alice".to_string());
    data.push_field("email".to_string(), "alice@example.com".to_string());
    match store.register_user("subscriber".to_string(), &data, &test_configuration(), now) {
        Err(DatabaseError::InvalidCredentialsError(e)) => {
            assert_eq!(e.details, "Missing password field");
        }
        other => panic!("expected InvalidCredentialsError, got {:?}", other),
    }
    assert_eq!(store.users.len(), 0);
}

#[test]
fn register_without_provider_record_still_creates_user() {
    let now = 1000;
    let mut store = DatabaseController::new();
    let data = registration("alice", "alice@example.com");
    let result = store
        .register_user("subscriber".to_string(), &data, &test_configuration(), now)
        .expect("registration must succeed");
    assert!(result.is_none(), "no provider record, so no user is returned");
    assert_eq!(store.users.len(), 1, "the account exists nevertheless");
}

#[test]
fn verify_before_expiry_sets_verified_once() {
    let now = 1000;
    let mut store = seeded_store(now);
    let user = register(&mut store, "alice", "alice@example.com", now);
    let verify = user.verify.unwrap();
    let t1 = now + HOUR_MILLIS;
    let verified_user = store
        .verify_user(
            "alice".to_string(),
            verify.verify_token.clone(),
            verify.verify_code.clone(),
            t1,
        )
        .expect("verification with the exact pair before expiry succeeds");
    let v1 = verified_user.verify.unwrap();
    assert!(v1.verified);
    assert_eq!(v1.verify_time, Some(t1));
    assert_eq!(store.users[0].verify.as_ref().unwrap().verify_time, Some(t1));

    // The decided behavior: a second presentation of the still-valid pair
    // succeeds idempotently and re-stamps nothing.
    let t2 = t1 + HOUR_MILLIS;
    let again = store
        .verify_user(
            "alice".to_string(),
            verify.verify_token.clone(),
            verify.verify_code.clone(),
            t2,
        )
        .expect("re-verifying a verified account with a valid pair succeeds");
    let v2 = again.verify.unwrap();
    assert!(v2.verified);
    assert_eq!(v2.verify_time, Some(t1), "the original verification time is kept");
    assert_eq!(store.users[0].verify.as_ref().unwrap().verify_time, Some(t1));
}

#[test]
fn verify_after_expiry_fails_with_correct_pair() {
    let now = 1000;
    let mut store = seeded_store(now);
    let user = register(&mut store, "alice", "alice@example.com", now);
    let verify = user.verify.unwrap();
    match store.verify_user(
        "alice".to_string(),
        verify.verify_token.clone(),
        verify.verify_code.clone(),
        now + DAY_MILLIS,
    ) {
        Err(DatabaseError::InvalidCredentialsError(e)) => {
            assert_eq!(e.details, "Invalid verify credentials");
        }
        other => panic!("expected InvalidCredentialsError, got {:?}", other),
    }
    assert!(!store.users[0].verify.as_ref().unwrap().verified);
}

#[test]
fn verify_wrong_pair_fails() {
    let now = 1000;
    let mut store = seeded_store(now);
    let user = register(&mut store, "alice", "alice@example.com", now);
    let verify = user.verify.unwrap();
    match store.verify_user(
        "alice".to_string(),
        verify.verify_token.clone(),
        "WRONG!".to_string(),
        now + 1,
    ) {
        Err(DatabaseError::InvalidCredentialsError(e)) => {
            assert_eq!(e.details, "Invalid verify credentials");
        }
        other => panic!("expected InvalidCredentialsError, got {:?}", other),
    }
    match store.verify_user(
        "nobody".to_string(),
        verify.verify_token,
        verify.verify_code,
        now + 1,
    ) {
        Err(DatabaseError::NotFoundError(e)) => {
            assert_eq!(e.details, "nobody was not found");
            assert_eq!(e.code, 2);
        }
        other => panic!("expected NotFoundError, got {:?}", other),
    }
}

#[test]
fn find_user_matches_username_or_email() {
    let now = 1000;
    let mut store = seeded_store(now);
    register(&mut store, "alice", "alice@example.com", now);
    let by_name = store.find_user("alice", None).unwrap();
    assert_eq!(by_name.username, "alice");
    let by_email = store
        .find_user("someone-else", Some("alice@example.com".to_string()))
        .unwrap();
    assert_eq!(by_email.username, "alice");
    match store.find_user("bob", None) {
        Err(DatabaseError::NotFoundError(e)) => assert_eq!(e.details, "bob was not found"),
        other => panic!("expected NotFoundError, got {:?}", other),
    }
}
