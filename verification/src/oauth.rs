//! The delegated-authorization handshake for one provider, and the registry
//! of outstanding authorizations.
//!
//! Each configured provider holds exactly one outstanding
//! (authorization URL, CSRF token) pair at a time; issuing a new pair
//! invalidates the old one.  A callback is accepted only when its `state`
//! parameter equals the held token exactly.  The network exchange of the
//! authorization code is an external collaborator: the embedding program
//! performs it between `callback_decision` and `handle_response`, and this
//! module decides everything before and after it.

use vstd::prelude::*;

use crate::configuration::OauthConfig;
use crate::database::{first_config_named, DatabaseController};
use crate::errors::DatabaseError;
use crate::request::RequestData;
use crate::server::Server;
use crate::strutil::str_eq;

verus! {

/// Whether both endpoint strings parse as URLs (oauth2's `AuthUrl::new`
/// and `RedirectUrl::new`): a function of the two strings alone.
pub uninterp spec fn endpoint_urls_parse(auth_url: Seq<char>, redirect_url: Seq<char>) -> bool;

/// The authorization URL oauth2 serializes for a client id, authorization
/// endpoint, redirect endpoint, scope list and CSRF state: a function of
/// those values alone (the client secret is not part of it).
pub uninterp spec fn authorization_url_of(
    client_id: Seq<char>,
    auth_url: Seq<char>,
    redirect_url: Seq<char>,
    scopes: Seq<Seq<char>>,
    state: Seq<char>,
) -> Seq<char>;

/// Relies on oauth2's client builder and `authorize_url`: the provider's
/// authorization URL for the given credentials, scopes and redirect, paired
/// with a fresh random CSRF token bound to it.  `None` exactly when an
/// endpoint URL cannot be parsed; on success the URL is the one oauth2
/// serializes for these inputs and the freshly drawn state.
#[verifier::external_body]
fn authorize_url_pair(
    client_id: &String,
    client_secret: &String,
    auth_url: &String,
    redirect_url: &String,
    scope: &Vec<String>,
) -> (r: Option<(String, String)>)
    ensures
        r is Some <==> endpoint_urls_parse(auth_url@, redirect_url@),
        r matches Some(pair) ==> pair.0@ == authorization_url_of(
            client_id@,
            auth_url@,
            redirect_url@,
            scope.deep_view(),
            pair.1@,
        ),
{
    let auth = oauth2::AuthUrl::new(auth_url.clone()).ok()?;
    let redirect = oauth2::RedirectUrl::new(redirect_url.clone()).ok()?;
    let client = oauth2::basic::BasicClient::new(oauth2::ClientId::new(client_id.clone()))
        .set_client_secret(oauth2::ClientSecret::new(client_secret.clone()))
        .set_auth_uri(auth)
        .set_redirect_uri(redirect);
    let mut request = client.authorize_url(oauth2::CsrfToken::new_random);
    for s in scope.iter() {
        request = request.add_scope(oauth2::Scope::new(s.clone()));
    }
    let (url, token) = request.url();
    Some((url.to_string(), token.secret().clone()))
}

/// The tokens a successful provider exchange hands back.
#[derive(Debug, PartialEq)]
pub struct ProviderTokens {
    pub access_token: String,
    pub refresh_token: String,
}

/// What a callback's query parameters call for.
#[derive(Debug, PartialEq)]
pub enum CallbackDecision {
    /// The `code` or `state` parameter is missing: reject.
    MissingParams,
    /// The `state` parameter differs from the held CSRF token: reject, and
    /// keep the outstanding pair (a failed attempt does not consume it).
    CsrfMismatch,
    /// The CSRF check passed: exchange this authorization code with the
    /// provider.
    Exchange(String),
}

/// The envelope a callback is answered with.
#[derive(Debug, PartialEq)]
pub struct CallbackReply {
    pub status: String,
    pub message: String,
}

/// One provider's outstanding authorization: its configuration, the issued
/// authorization URL and the CSRF token bound 1:1 to it.
pub struct Oauth {
    pub name: String,
    pub config: OauthConfig,
    pub csrf_token: String,
    pub auth_url: String,
}

impl Oauth {
    /// Issue the authorization URL for `config`, binding a fresh CSRF token
    /// to it.  The redirect endpoint is keyed by provider name under the
    /// serving host.  Unparsable endpoint URLs are `ConfigFailure`.
    pub fn new(config: OauthConfig, serve: &Server) -> (r: Result<Oauth, DatabaseError>)
        ensures
            ({
                let redirect = "https://"@ + serve.hostname@ + "/oauth-validate/"@ + config.name@;
                match r {
                    Ok(o) => {
                        &&& endpoint_urls_parse(config.auth_url@, redirect)
                        &&& o.name@ == config.name@
                        &&& o.config == config
                        &&& o.auth_url@ == authorization_url_of(
                            config.client_id@,
                            config.auth_url@,
                            redirect,
                            config.scope.deep_view(),
                            o.csrf_token@,
                        )
                    },
                    Err(e) => e matches DatabaseError::ConfigFailure(_) && !endpoint_urls_parse(
                        config.auth_url@,
                        redirect,
                    ),
                }
            }),
    {
        let redirect_url = "https://".to_owned().concat(serve.hostname.as_str()).concat(
            "/oauth-validate/",
        ).concat(config.name.as_str());
        match authorize_url_pair(
            &config.client_id,
            &config.client_secret,
            &config.auth_url,
            &redirect_url,
            &config.scope,
        ) {
            Some(pair) => {
                let (auth_url, csrf_token) = pair;
                let name = config.name.clone();
                Ok(Oauth { name, config, csrf_token, auth_url })
            },
            None => Err(
                DatabaseError::ConfigFailure(
                    "the provider endpoint URLs could not be parsed".to_owned(),
                ),
            ),
        }
    }

    /// Decide a callback from its query parameters: reject missing
    /// parameters, reject a `state` that is not exactly the held CSRF
    /// token, and otherwise call for the provider exchange of the code.
    pub fn callback_decision(&self, query: &RequestData) -> (r: CallbackDecision)
        ensures
            match r {
                CallbackDecision::MissingParams => query.spec_get("code"@) is None
                    || query.spec_get("state"@) is None,
                CallbackDecision::CsrfMismatch => {
                    &&& query.spec_get("code"@) is Some
                    &&& query.spec_get("state"@) is Some
                    &&& query.spec_get("state"@)->0 != self.csrf_token@
                },
                CallbackDecision::Exchange(code) => {
                    &&& query.spec_get("code"@) == Some(code@)
                    &&& query.spec_get("state"@) == Some(self.csrf_token@)
                },
            },
    {
        let code = match query.get("code") {
            Some(c) => c.clone(),
            None => {
                return CallbackDecision::MissingParams;
            },
        };
        let state = match query.get("state") {
            Some(s) => s.clone(),
            None => {
                return CallbackDecision::MissingParams;
            },
        };
        if str_eq(state.as_str(), self.csrf_token.as_str()) {
            CallbackDecision::Exchange(code)
        } else {
            CallbackDecision::CsrfMismatch
        }
    }

    /// The reply to a callback whose `state` failed the CSRF check.
    pub fn mismatch_reply(&self) -> (r: CallbackReply)
        ensures
            r.status@ == "fail"@,
            r.message@ == "The CSRF Tokens did not match"@,
    {
        CallbackReply {
            status: "fail".to_owned(),
            message: "The CSRF Tokens did not match".to_owned(),
        }
    }

    /// The reply to a callback missing its `code` or `state` parameter.
    pub fn missing_reply(&self) -> (r: CallbackReply)
        ensures
            r.status@ == "fail"@,
            r.message@ == "Missing code or state parameter"@,
    {
        CallbackReply {
            status: "fail".to_owned(),
            message: "Missing code or state parameter".to_owned(),
        }
    }

    /// Finish a callback whose code the embedding program exchanged with
    /// the provider.  On a successful exchange the provider record —
    /// this configuration carrying the obtained tokens — is persisted as a
    /// new object-backed record; a failed exchange, or a refused insert,
    /// changes nothing.
    pub fn handle_response(
        &self,
        store: &mut DatabaseController,
        exchange: Result<ProviderTokens, String>,
        now: u64,
    ) -> (r: CallbackReply)
        requires
            old(store).wf(),
        ensures
            final(store).wf(),
            final(store).users == old(store).users,
            r.status@ == "success"@ || r.status@ == "fail"@,
            r.status@ == "fail"@ ==> *final(store) == *old(store),
            r.status@ == "success"@ ==> {
                &&& exchange matches Ok(tokens) && {
                    &&& first_config_named(old(store).oauth_records@, self.config.name@) is None
                    &&& final(store).oauth_records@.len() == old(store).oauth_records@.len() + 1
                    &&& final(store).oauth_records@ == old(store).oauth_records@.push(
                        final(store).oauth_records@.last(),
                    )
                    &&& ({
                        let c = final(store).oauth_records@.last();
                        &&& c.name@ == self.config.name@
                        &&& c.access_token == Some(tokens.access_token)
                        &&& c.refresh_token == Some(tokens.refresh_token)
                        &&& c.id matches Some(id) && (id@.len() == 24 && r.message@
                            == "New Oauth Record Added\nID: "@ + id@)
                    })
                    &&& final(store).objects@.len() == old(store).objects@.len() + 1
                }
            },
            exchange is Err ==> r.status@ == "fail"@,
            (exchange is Ok && first_config_named(old(store).oauth_records@, self.config.name@)
                is None && old(store).objects@.len() == 0) ==> r.status@ == "success"@,
    {
        proof {
            reveal_strlit("success");
            reveal_strlit("fail");
        }
        match exchange {
            Ok(tokens) => {
                let mut record = self.config.clone();
                record.access_token = Some(tokens.access_token);
                record.refresh_token = Some(tokens.refresh_token);
                let ghost grecord = record;
                match store.add_oauth_record(record, now) {
                    Ok(idopt) => {
                        proof {
                            assert(first_config_named(old(store).oauth_records@, grecord.name@) is None);
                            assert("success"@.len() == 7);
                            assert("fail"@.len() == 4);
                        }
                        match idopt {
                            Some(id) => success_reply(id),
                            None => CallbackReply {
                                status: "fail".to_owned(),
                                message: "the provider record was not persisted".to_owned(),
                            },
                        }
                    },
                    Err(e) => CallbackReply { status: "fail".to_owned(), message: e.details() },
                }
            },
            Err(message) => CallbackReply { status: "fail".to_owned(), message },
        }
    }
}

/// The success reply naming the persisted record.
fn success_reply(id: String) -> (r: CallbackReply)
    ensures
        r.status@ == "success"@,
        r.message@ == "New Oauth Record Added\nID: "@ + id@,
{
    CallbackReply {
        status: "success".to_owned(),
        message: "New Oauth Record Added\nID: ".to_owned().concat(id.as_str()),
    }
}

/// The first registry entry bearing `name`.
pub open spec fn first_oauth_named(auths: Seq<Oauth>, name: Seq<char>) -> Option<int>
    decreases auths.len(),
{
    if auths.len() == 0 {
        None
    } else if auths[0].name@ == name {
        Some(0)
    } else {
        match first_oauth_named(auths.drop_first(), name) {
            Some(i) => Some(i + 1),
            None => None,
        }
    }
}

/// The explicitly owned registry of outstanding authorizations, one entry
/// per provider name.  The embedding program synchronizes access to it.
pub struct Authorizer {
    pub auths: Vec<Oauth>,
}

impl Authorizer {
    /// No two entries share a provider name.
    pub open spec fn wf(self) -> bool {
        forall|i: int, j: int|
            #![trigger self.auths@[i], self.auths@[j]]
            0 <= i < j < self.auths@.len() ==> self.auths@[i].name@ != self.auths@[j].name@
    }

    /// An empty registry.
    pub fn new() -> (r: Authorizer)
        ensures
            r.wf(),
            r.auths@.len() == 0,
    {
        Authorizer { auths: Vec::new() }
    }

    /// Register `auth` under its provider name, replacing any outstanding
    /// authorization for that provider (the old pair becomes invalid).
    pub fn add_oauth(self, auth: Oauth) -> (r: Authorizer)
        requires
            self.wf(),
        ensures
            r.wf(),
            match first_oauth_named(self.auths@, auth.name@) {
                Some(i) => r.auths@ == self.auths@.update(i, auth),
                None => r.auths@ == self.auths@.push(auth),
            },
    {
        let mut auths = self.auths;
        let n = auths.len();
        let mut i: usize = 0;
        while i < n
            invariant
                n == auths@.len(),
                0 <= i <= n,
                auths@ == self.auths@,
                forall|a: int, b: int|
                    #![trigger auths@[a], auths@[b]]
                    0 <= a < b < auths@.len() ==> auths@[a].name@ != auths@[b].name@,
                forall|j: int| 0 <= j < i ==> (#[trigger] auths@[j]).name@ != auth.name@,
            decreases n - i,
        {
            if str_eq(auths[i].name.as_str(), auth.name.as_str()) {
                proof {
                    lemma_oauth_named_prefix(auths@, auth.name@, i as int);
                }
                let ghost olds = auths@;
                auths[i] = auth;
                proof {
                    assert forall|a: int, b: int|
                        #![trigger auths@[a], auths@[b]]
                        0 <= a < b < auths@.len() implies auths@[a].name@ != auths@[b].name@ by {
                        assert(olds[a].name@ != olds[b].name@);
                        assert(olds[i as int].name@ == auth.name@);
                    }
                }
                return Authorizer { auths };
            }
            i = i + 1;
        }
        proof {
            lemma_oauth_named_prefix_none(auths@, auth.name@);
        }
        auths.push(auth);
        Authorizer { auths }
    }

    /// The outstanding authorization for `provider`, if one is registered.
    pub fn get<'a>(&'a self, provider: &str) -> (r: Option<&'a Oauth>)
        ensures
            match r {
                Some(o) => first_oauth_named(self.auths@, provider@) matches Some(i) && *o
                    == self.auths@[i],
                None => first_oauth_named(self.auths@, provider@) is None,
            },
    {
        let n = self.auths.len();
        let mut i: usize = 0;
        while i < n
            invariant
                n == self.auths@.len(),
                0 <= i <= n,
                forall|j: int| 0 <= j < i ==> (#[trigger] self.auths@[j]).name@ != provider@,
            decreases n - i,
        {
            if str_eq(self.auths[i].name.as_str(), provider) {
                proof {
                    lemma_oauth_named_prefix(self.auths@, provider@, i as int);
                }
                return Some(&self.auths[i]);
            }
            i = i + 1;
        }
        proof {
            lemma_oauth_named_prefix_none(self.auths@, provider@);
        }
        None
    }
}

/// When the first `i` entries miss and entry `i` matches, the lookup finds
/// exactly `i`.
proof fn lemma_oauth_named_prefix(auths: Seq<Oauth>, name: Seq<char>, i: int)
    requires
        0 <= i < auths.len(),
        forall|j: int| 0 <= j < i ==> (#[trigger] auths[j]).name@ != name,
        auths[i].name@ == name,
    ensures
        first_oauth_named(auths, name) == Some(i),
        first_oauth_named(auths.skip(i), name) == Some(0int),
    decreases i,
{
    assert(auths.skip(i)[0] == auths[i]);
    if i > 0 {
        lemma_oauth_named_prefix(auths.drop_first(), name, i - 1);
        assert(auths.drop_first().skip(i - 1) =~= auths.skip(i));
    }
}

/// When no entry matches, the lookup misses.
proof fn lemma_oauth_named_prefix_none(auths: Seq<Oauth>, name: Seq<char>)
    requires
        forall|j: int| 0 <= j < auths.len() ==> (#[trigger] auths[j]).name@ != name,
    ensures
        first_oauth_named(auths, name) is None,
    decreases auths.len(),
{
    if auths.len() > 0 {
        lemma_oauth_named_prefix_none(auths.drop_first(), name);
    }
}

} // verus!
