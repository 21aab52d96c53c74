use qamaits::database::DatabaseController;
use qamaits::emailer::{bearer_header, gmail_send_body, gmail_send_url, Emailer};
use qamaits::errors::{AlreadyExistsError, InvalidCredentialsError, NotFoundError};
use qamaits::request::RequestData;
use qamaits::server::parse_ipv4;
use qamaits::structures::{AccessRecord, User, Verified};
use qamaits::strutil::str_eq;

#[test]
fn gmail_send_body_frames_the_base64_of_the_message() {
    // URL-safe base64 with padding: "hello" encodes to "aGVsbG8=".
    assert_eq!(gmail_send_body("hello"), "{ \"raw\" : \"aGVsbG8=\" }");
    // "" encodes to "": the frame alone remains.
    assert_eq!(gmail_send_body(""), "{ \"raw\" : \"\" }");
    // A payload needing the URL-safe alphabet: 0xfb 0xff is "-_8=" url-safe.
    assert_ne!(gmail_send_body("hello"), "{ \"raw\" : \"hello\" }");
}

#[test]
fn request_headers_and_url_are_composed_exactly() {
    assert_eq!(bearer_header("tok-123"), "Authorization: Bearer tok-123");
    assert_eq!(
        gmail_send_url("the-key"),
        "https://www.googleapis.com/gmail/v1/users/me/messages/send?alt=json&prettyPrint=true&key=the-key"
    );
}

#[test]
fn build_email_keeps_its_parts() {
    let emailer = Emailer::new(20);
    assert_eq!(emailer.n_threads, 20);
    let email = emailer.build_email(
        "noreply@example.org".to_string(),
        ("kim@example.com".to_string(), "kim".to_string()),
        "Subject line".to_string(),
        "<p>html</p>".to_string(),
        "plain".to_string(),
    );
    assert_eq!(email.from, "noreply@example.org");
    assert_eq!(email.to_address, "kim@example.com");
    assert_eq!(email.to_name, "kim");
    assert_eq!(email.subject, "Subject line");
    assert_eq!(email.html, "<p>html</p>");
    assert_eq!(email.text, "plain");
}

#[test]
fn verification_email_carries_the_code() {
    let emailer = Emailer::new(4);
    let verified = Verified::new(1000);
    let code = verified.verify_code.clone();
    let user = User::new(
        "0123456789abcdef01234567".to_string(),
        "kim".to_string(),
        "pw pw pw".to_string(),
        "kim@example.com".to_string(),
        "subscriber".to_string(),
        Some(verified),
        None,
        None,
        None,
        None,
    )
    .expect("hashing succeeds");
    let email = emailer.verification_email("noreply@example.org".to_string(), &user);
    assert_eq!(email.subject, "Login Verification Code");
    assert_eq!(email.to_address, "kim@example.com");
    assert_eq!(email.to_name, "kim");
    assert_eq!(
        email.html,
        format!("<h2><u>Your verification code is</u>:<b> {}</b></h2>", code)
    );
    assert_eq!(email.text, format!("Your verification code is: {}", code));
}

#[test]
fn password_hashing_round_trip() {
    let hashed = User::hash_pw("open sesame".to_string()).expect("hashing succeeds");
    assert_ne!(hashed, "open sesame", "the hash is not the password");
    assert!(User::verify_pw("open sesame".to_string(), hashed.clone()).unwrap());
    assert_eq!(User::verify_pw("wrong".to_string(), hashed).unwrap(), false);
}

#[test]
fn fresh_verification_state_has_the_documented_shape() {
    let v = Verified::new(5000);
    assert!(!v.verified);
    assert_eq!(v.verify_token.len(), 256);
    assert_eq!(v.verify_code.len(), 6);
    assert_eq!(v.expiration_time, 5000 + 86400000);
    assert!(v.verify_time.is_none());
    assert!(v.verify_token.chars().all(|c| c.is_ascii_alphanumeric()));
    let other = Verified::new(5000);
    assert_ne!(other.verify_token, v.verify_token, "tokens are freshly generated");
}

#[test]
fn fresh_access_record_has_the_documented_shape() {
    let rec = AccessRecord::new("user-1".to_string(), 9000);
    assert_eq!(rec.user_id, "user-1");
    assert_eq!(rec.id.len(), 24);
    assert!(rec.id.chars().all(|c| c.is_ascii_hexdigit()));
    assert_eq!(rec.creation_time, 9000);
    assert_eq!(rec.expires, 9000 + 1200000);
    assert_eq!(rec.access_token.len(), 256);
    assert_eq!(rec.refresh_token.as_ref().unwrap().len(), 256);
    assert_ne!(rec.access_token, rec.refresh_token.unwrap());
}

#[test]
fn generated_object_ids_are_hex_and_distinct() {
    let a = DatabaseController::generate_object_id().unwrap();
    let b = DatabaseController::generate_object_id().unwrap();
    assert_eq!(a.len(), 24);
    assert!(a.chars().all(|c| c.is_ascii_hexdigit()));
    assert_ne!(a, b);
}

#[test]
fn verified_verify_checks_pair_and_expiry() {
    let mut verified = Verified::new(1000);
    verified.verify_token = "tok".to_string();
    verified.verify_code = "code".to_string();
    let user = User::new(
        "0123456789abcdef01234567".to_string(),
        "kim".to_string(),
        "pw pw pw".to_string(),
        "kim@example.com".to_string(),
        "subscriber".to_string(),
        Some(verified),
        None,
        None,
        None,
        None,
    )
    .unwrap();
    assert!(Verified::verify(&user, "tok".to_string(), "code".to_string(), 1000));
    assert!(!Verified::verify(&user, "tok".to_string(), "code".to_string(), 1000 + 86400000));
    assert!(!Verified::verify(&user, "tok".to_string(), "nope".to_string(), 1000));
    assert!(!Verified::verify(&user, "nope".to_string(), "code".to_string(), 1000));
}

#[test]
fn error_kinds_carry_their_codes() {
    assert_eq!(InvalidCredentialsError::new("a").code, 1);
    assert_eq!(NotFoundError::new("b").code, 2);
    assert_eq!(AlreadyExistsError::new("c").code, 3);
    assert_eq!(NotFoundError::new("b").details, "b");
}

#[test]
fn request_data_lookup_is_first_match() {
    let mut data = RequestData::new();
    data.push_field("k".to_string(), "first".to_string());
    data.push_field("k".to_string(), "second".to_string());
    assert_eq!(data.get("k").map(|s| s.as_str()), Some("first"));
    assert_eq!(data.get("missing"), None);
    assert!(str_eq("abc", "abc"));
    assert!(!str_eq("abc", "abd"));
}

#[test]
fn parse_ipv4_accepts_dotted_quads_only() {
    assert_eq!(parse_ipv4("192.168.0.1"), Some([192, 168, 0, 1]));
    assert_eq!(parse_ipv4("0.0.0.0"), Some([0, 0, 0, 0]));
    assert_eq!(parse_ipv4("255.255.255.255"), Some([255, 255, 255, 255]));
    assert_eq!(parse_ipv4("010.2.3.4"), Some([10, 2, 3, 4]));
    assert_eq!(parse_ipv4("256.1.1.1"), None);
    assert_eq!(parse_ipv4("1.2.3"), None);
    assert_eq!(parse_ipv4("1.2.3.4.5"), None);
    assert_eq!(parse_ipv4("1..2.3"), None);
    assert_eq!(parse_ipv4(""), None);
    assert_eq!(parse_ipv4("a.b.c.d"), None);
    assert_eq!(parse_ipv4("1234.1.1.1"), None);
}
