use qamaits::configuration::{Configuration, EmailConfig, OauthConfig, OauthWrapper, ServerConfig, DB};
use qamaits::database::DatabaseController;
use qamaits::errors::DatabaseError;
use qamaits::oauth::{Authorizer, CallbackDecision, Oauth, ProviderTokens};
use qamaits::request::RequestData;
use qamaits::server::Server;

fn oauth_provider(name: &str) -> OauthConfig {
    OauthConfig {
        name: name.to_string(),
        client_id: "the-client-id".to_string(),
        client_secret: "the-client-secret".to_string(),
        auth_url: "https://accounts.example.com/o/oauth2/auth".to_string(),
        token_url: "https://oauth2.example.com/token".to_string(),
        scope: vec![
            "https://mail.example.com/send".to_string(),
            "profile".to_string(),
        ],
        api_key: "api-key".to_string(),
        access_token: None,
        refresh_token: None,
        id: None,
    }
}

fn oauth_configuration() -> Configuration {
    Configuration {
        database: DB {
            uri: "mongodb://localhost:27017".to_string(),
            name: "identity".to_string(),
            collections: None,
        },
        server: ServerConfig {
            address: "10.0.0.1".to_string(),
            port: 8443,
            hostname: "example.org".to_string(),
            access_log: "access.log".to_string(),
            tls_key: "key.pem".to_string(),
            tls_cert: "cert.pem".to_string(),
        },
        oauth: OauthWrapper { auths: vec![oauth_provider("gmail")] },
        email: EmailConfig {
            from_address: "noreply@example.org".to_string(),
            provider: "gmail".to_string(),
        },
    }
}

fn fresh_oauth() -> (Oauth, Server) {
    let config = oauth_configuration();
    let server = Server::instance(&config).expect("the configuration is valid");
    let oauth = Oauth::new(oauth_provider("gmail"), &server).expect("the endpoint URLs parse");
    (oauth, server)
}

fn callback_query(code: &str, state: &str) -> RequestData {
    let mut query = RequestData::new();
    query.push_field("code".to_string(), code.to_string());
    query.push_field("state".to_string(), state.to_string());
    query
}

#[test]
fn authorization_url_carries_a_fresh_csrf_token() {
    let (oauth, _server) = fresh_oauth();
    assert_eq!(oauth.name, "gmail");
    assert!(!oauth.csrf_token.is_empty());
    assert!(
        oauth.auth_url.starts_with("https://accounts.example.com/o/oauth2/auth?"),
        "the authorization URL is built on the configured endpoint: {}",
        oauth.auth_url
    );
    assert_ne!(oauth.auth_url, oauth_provider("gmail").auth_url);
    assert!(oauth.auth_url.contains("state="));
    assert!(oauth.auth_url.contains("client_id=the-client-id"));
    assert!(oauth.auth_url.contains(&oauth.csrf_token));
    assert!(
        oauth.auth_url.contains("oauth-validate%2Fgmail")
            || oauth.auth_url.contains("oauth-validate/gmail"),
        "the redirect endpoint is keyed by provider name: {}",
        oauth.auth_url
    );

    // Issuing a second authorization produces a different CSRF token.
    let config = oauth_configuration();
    let server = Server::instance(&config).unwrap();
    let second = Oauth::new(oauth_provider("gmail"), &server).unwrap();
    assert_ne!(second.csrf_token, oauth.csrf_token);
}

#[test]
fn oauth_new_rejects_unparsable_endpoints() {
    let config = oauth_configuration();
    let server = Server::instance(&config).unwrap();
    let mut bad = oauth_provider("gmail");
    bad.auth_url = "not a url".to_string();
    assert!(Oauth::new(bad, &server).is_err());
}

#[test]
fn callback_with_wrong_state_is_rejected_without_a_record() {
    let (oauth, mut server) = fresh_oauth();
    let query = callback_query("some-code", "not-the-csrf-token");
    match oauth.callback_decision(&query) {
        CallbackDecision::CsrfMismatch => {}
        other => panic!("expected CsrfMismatch, got {:?}", other),
    }
    let reply = oauth.mismatch_reply();
    assert_eq!(reply.status, "fail");
    assert_eq!(server.database.oauth_records.len(), 0, "no oauth record is created");

    // A matching state whose provider exchange fails also leaves no record.
    let query = callback_query("some-code", &oauth.csrf_token);
    match oauth.callback_decision(&query) {
        CallbackDecision::Exchange(code) => assert_eq!(code, "some-code"),
        other => panic!("expected Exchange, got {:?}", other),
    }
    let reply = oauth.handle_response(
        &mut server.database,
        Err("the provider refused the code".to_string()),
        2000,
    );
    assert_eq!(reply.status, "fail");
    assert_eq!(reply.message, "the provider refused the code");
    assert_eq!(server.database.oauth_records.len(), 0, "no oauth record is created");
}

#[test]
fn callback_with_matching_state_persists_the_link() {
    let (oauth, mut server) = fresh_oauth();
    let query = callback_query("grant-code", &oauth.csrf_token);
    match oauth.callback_decision(&query) {
        CallbackDecision::Exchange(code) => assert_eq!(code, "grant-code"),
        other => panic!("expected Exchange, got {:?}", other),
    }
    let tokens = ProviderTokens {
        access_token: "provider-access".to_string(),
        refresh_token: "provider-refresh".to_string(),
    };
    let reply = oauth.handle_response(&mut server.database, Ok(tokens), 2000);
    assert_eq!(reply.status, "success");
    assert!(reply.message.starts_with("New Oauth Record Added\nID: "));
    assert_eq!(server.database.oauth_records.len(), 1);
    let stored = &server.database.oauth_records[0];
    assert_eq!(stored.name, "gmail");
    assert_eq!(stored.access_token.as_deref(), Some("provider-access"));
    assert_eq!(stored.refresh_token.as_deref(), Some("provider-refresh"));
    let id = stored.id.clone().expect("the record is object-backed");
    assert_eq!(id.len(), 24);
    assert_eq!(server.database.objects.len(), 1);
    assert_eq!(server.database.objects[0].the_type, "oauth");
    assert_eq!(server.database.objects[0].id, id);

    // A second link for the same provider is refused and changes nothing.
    let tokens = ProviderTokens {
        access_token: "another-access".to_string(),
        refresh_token: "another-refresh".to_string(),
    };
    let reply = oauth.handle_response(&mut server.database, Ok(tokens), 3000);
    assert_eq!(reply.status, "fail");
    assert_eq!(server.database.oauth_records.len(), 1);
    assert_eq!(
        server.database.oauth_records[0].access_token.as_deref(),
        Some("provider-access")
    );
}

#[test]
fn callback_with_missing_parameters_is_rejected() {
    let (oauth, _server) = fresh_oauth();
    let mut query = RequestData::new();
    query.push_field("code".to_string(), "abc".to_string());
    match oauth.callback_decision(&query) {
        CallbackDecision::MissingParams => {}
        other => panic!("expected MissingParams, got {:?}", other),
    }
    let reply = oauth.missing_reply();
    assert_eq!(reply.status, "fail");
}

#[test]
fn authorizer_holds_one_authorization_per_provider() {
    let (oauth, server) = fresh_oauth();
    let first_token = oauth.csrf_token.clone();
    let authorizer = Authorizer::new();
    let authorizer = authorizer.add_oauth(oauth);
    assert!(authorizer.get("gmail").is_some());
    assert!(authorizer.get("github").is_none());

    // Re-issuing replaces the outstanding pair for that provider.
    let replacement = Oauth::new(oauth_provider("gmail"), &server).unwrap();
    let second_token = replacement.csrf_token.clone();
    let authorizer = authorizer.add_oauth(replacement);
    assert_eq!(authorizer.auths.len(), 1);
    let held = authorizer.get("gmail").unwrap();
    assert_eq!(held.csrf_token, second_token);
    assert_ne!(held.csrf_token, first_token);
}

#[test]
fn get_oauth_record_round_trip() {
    let mut store = DatabaseController::new();
    store.add_oauth_record(oauth_provider("gmail"), 500).unwrap();
    let found = store.get_oauth_record("gmail".to_string()).unwrap();
    assert_eq!(found.name, "gmail");
    assert_eq!(found.client_id, "the-client-id");
    match store.get_oauth_record("github".to_string()) {
        Err(e) => assert_eq!(e.details(), "Oauth config for github was not found"),
        Ok(_) => panic!("an unknown provider must not be found"),
    }
}

#[test]
fn server_instance_parses_the_configured_endpoint() {
    let config = oauth_configuration();
    let server = Server::instance(&config).expect("the configuration is valid");
    assert_eq!(server.address, [10, 0, 0, 1]);
    assert_eq!(server.port, 8443);
    assert_eq!(server.hostname, "example.org");
    assert!(server.database.users.is_empty());
    assert!(server.database.oauth_records.is_empty());
    assert!(server.database.objects.is_empty());

    let mut bad = oauth_configuration();
    bad.server.address = "localhost".to_string();
    match Server::instance(&bad) {
        Err(DatabaseError::ConfigFailure(_)) => {}
        other => panic!("expected ConfigFailure, got {:?}", other.is_ok()),
    }
}
