use qamaits::api_v1::{APIResponse, ResponsePayload, API};
use qamaits::configuration::{Configuration, EmailConfig, OauthConfig, OauthWrapper, ServerConfig, DB};
use qamaits::request::RequestData;
use qamaits::server::Server;

fn api_provider(name: &str) -> OauthConfig {
    OauthConfig {
        name: name.to_string(),
        client_id: "client-id".to_string(),
        client_secret: "the-client-secret".to_string(),
        auth_url: "https://accounts.example.com/o/oauth2/auth".to_string(),
        token_url: "https://oauth2.example.com/token".to_string(),
        scope: vec!["https://mail.example.com/send".to_string()],
        api_key: "api-key".to_string(),
        access_token: None,
        refresh_token: None,
        id: None,
    }
}

fn api_configuration() -> Configuration {
    Configuration {
        database: DB {
            uri: "mongodb://localhost:27017".to_string(),
            name: "identity".to_string(),
            collections: None,
        },
        server: ServerConfig {
            address: "0.0.0.0".to_string(),
            port: 443,
            hostname: "example.org".to_string(),
            access_log: "access.log".to_string(),
            tls_key: "key.pem".to_string(),
            tls_cert: "cert.pem".to_string(),
        },
        oauth: OauthWrapper { auths: vec![api_provider("gmail")] },
        email: EmailConfig {
            from_address: "noreply@example.org".to_string(),
            provider: "gmail".to_string(),
        },
    }
}

fn fields(pairs: &[(&str, &str)]) -> RequestData {
    let mut data = RequestData::new();
    for (name, value) in pairs {
        data.push_field(name.to_string(), value.to_string());
    }
    data
}

fn act(
    server: &mut Server,
    action: &str,
    data: &RequestData,
    now: u64,
) -> APIResponse<ResponsePayload> {
    API::map_actions(
        1,
        server,
        action.to_string(),
        Some(data),
        &api_configuration(),
        now,
    )
    .expect("the dispatcher always answers with an envelope")
}

/// The whole lifecycle through the request API: register, read back the
/// verify pair, verify, log in, exchange, log out, and log in again with a
/// fresh pair.
#[test]
fn end_to_end_lifecycle() {
    let config = api_configuration();
    let mut server = Server::instance(&config).expect("the configuration is valid");
    server
        .database
        .add_oauth_record(api_provider("gmail"), 100)
        .expect("seeding the provider record must succeed");

    // Register.
    let reg = act(
        &mut server,
        "register",
        &fields(&[
            ("password", "correct horse battery"),
            ("username", "ivy"),
            ("email", "ivy@example.com"),
            ("first_name", "Ivy"),
        ]),
        1000,
    );
    assert_eq!(reg.status, "success");
    assert_eq!(reg.message, None);
    let (user_id, verify_token) = match reg.data {
        Some(ResponsePayload::Registration { user_id, verify_token }) => (user_id, verify_token),
        other => panic!("expected a Registration payload, got {:?}", other),
    };
    assert_eq!(user_id.len(), 24);
    assert_eq!(verify_token.len(), 256);
    assert_eq!(server.database.users[0].first_name.as_deref(), Some("Ivy"));

    // Read back the verify code (the one-time response carries the token;
    // the code reaches the user by email).
    let verify_code = server.database.users[0]
        .verify
        .as_ref()
        .unwrap()
        .verify_code
        .clone();

    // Verify.
    let ver = act(
        &mut server,
        "verify",
        &fields(&[
            ("username", "ivy"),
            ("verify_token", &verify_token),
            ("verify_code", &verify_code),
        ]),
        2000,
    );
    assert_eq!(ver.status, "success");
    assert_eq!(ver.message.as_deref(), Some("ivy is now verified"));
    match ver.data {
        Some(ResponsePayload::Verification { verify_token: t, verify_time }) => {
            assert_eq!(t, verify_token);
            assert_eq!(verify_time, 2000);
        }
        other => panic!("expected a Verification payload, got {:?}", other),
    }

    // Log in.
    let login = act(
        &mut server,
        "login",
        &fields(&[("username", "ivy"), ("password", "correct horse battery")]),
        3000,
    );
    assert_eq!(login.status, "success");
    assert_eq!(login.message.as_deref(), Some("Success"));
    let (access1, refresh1, expires1) = match login.data {
        Some(ResponsePayload::Session { access_token, refresh_token, expires }) => {
            (access_token, refresh_token, expires)
        }
        other => panic!("expected a Session payload, got {:?}", other),
    };
    assert_eq!(expires1, 3000 + 1200000);

    // Exchange the pair.
    let exchange = act(
        &mut server,
        "exchange",
        &fields(&[
            ("username", "ivy"),
            ("access_token", &access1),
            ("refresh_token", &refresh1),
        ]),
        4000,
    );
    assert_eq!(exchange.status, "success");
    let (access2, refresh2, expires2) = match exchange.data {
        Some(ResponsePayload::Session { access_token, refresh_token, expires }) => {
            (access_token, refresh_token, expires)
        }
        other => panic!("expected a Session payload, got {:?}", other),
    };
    assert_ne!(access2, access1, "both tokens rotate");
    assert_ne!(refresh2, refresh1, "both tokens rotate");
    assert_eq!(expires2, 4000 + 1200000);

    // The stale pair is immediately invalid.
    let stale = act(
        &mut server,
        "exchange",
        &fields(&[
            ("username", "ivy"),
            ("access_token", &access1),
            ("refresh_token", &refresh1),
        ]),
        5000,
    );
    assert_eq!(stale.status, "fail");
    assert_eq!(stale.message.as_deref(), Some("Login Failed"));
    match stale.data {
        Some(ResponsePayload::Text(detail)) => {
            assert_eq!(detail, "The specified access token was not found!");
        }
        other => panic!("expected a Text payload, got {:?}", other),
    }

    // Log out with the current token.
    let out = act(
        &mut server,
        "logout",
        &fields(&[("username", "ivy"), ("access_token", &access2)]),
        6000,
    );
    assert_eq!(out.status, "success");
    assert_eq!(out.message.as_deref(), Some("ivy is logged out"));
    match out.data {
        Some(ResponsePayload::Text(t)) => assert_eq!(t, "Logged Out!"),
        other => panic!("expected a Text payload, got {:?}", other),
    }

    // A later login succeeds again with a fresh pair.
    let relogin = act(
        &mut server,
        "login",
        &fields(&[("username", "ivy"), ("password", "correct horse battery")]),
        7000,
    );
    assert_eq!(relogin.status, "success");
    match relogin.data {
        Some(ResponsePayload::Session { access_token, refresh_token, expires }) => {
            assert_ne!(access_token, access2);
            assert_ne!(refresh_token, refresh2);
            assert_eq!(expires, 7000 + 1200000);
        }
        other => panic!("expected a Session payload, got {:?}", other),
    }
}

#[test]
fn register_envelope_reports_the_detail() {
    let config = api_configuration();
    let mut server = Server::instance(&config).unwrap();
    let resp = act(
        &mut server,
        "register",
        &fields(&[
            ("password", "pw pw pw"),
            ("username", "judy"),
            ("email", "not-an-email"),
        ]),
        1000,
    );
    assert_eq!(resp.status, "fail");
    assert_eq!(resp.message.as_deref(), Some("Registration failed!"));
    match resp.data {
        Some(ResponsePayload::Text(detail)) => {
            assert_eq!(detail, "This is an invalid email address");
        }
        other => panic!("expected a Text payload, got {:?}", other),
    }
}

#[test]
fn login_envelope_reports_missing_field() {
    let config = api_configuration();
    let mut server = Server::instance(&config).unwrap();
    let resp = act(&mut server, "login", &fields(&[("username", "judy")]), 1000);
    assert_eq!(resp.status, "fail");
    assert_eq!(resp.message.as_deref(), Some("Login Failed"));
    match resp.data {
        Some(ResponsePayload::Text(detail)) => assert_eq!(detail, "Missing password field"),
        other => panic!("expected a Text payload, got {:?}", other),
    }
}

#[test]
fn unknown_action_and_missing_data_are_invalid() {
    let config = api_configuration();
    let mut server = Server::instance(&config).unwrap();
    let resp = act(&mut server, "destroy", &fields(&[]), 1000);
    assert_eq!(resp.status, "fail");
    assert_eq!(resp.message.as_deref(), Some("Invalid data"));

    let none = API::map_actions(1, &mut server, "login".to_string(), None, &config, 1000)
        .expect("the dispatcher always answers with an envelope");
    assert_eq!(none.status, "fail");
    assert_eq!(none.message.as_deref(), Some("Invalid data"));
}
