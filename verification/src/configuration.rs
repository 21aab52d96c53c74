//! Static configuration: the store location and collection layout, the
//! serving endpoint, the OAuth providers and the mail-sender identity.

use vstd::prelude::*;

verus! {

/// Options for one named collection of the document store.
#[derive(Debug, PartialEq)]
pub struct NewCollectionOptions {
    pub name: String,
    pub capped: Option<bool>,
    pub size: Option<i64>,
    pub max: Option<i64>,
}

/// Where the document store lives and which collections it must hold.
#[derive(Debug, PartialEq)]
pub struct DB {
    pub uri: String,
    pub name: String,
    pub collections: Option<Vec<NewCollectionOptions>>,
}

/// The serving endpoint and its TLS material.
#[derive(Debug, PartialEq)]
pub struct ServerConfig {
    pub address: String,
    pub port: u16,
    pub hostname: String,
    pub access_log: String,
    pub tls_key: String,
    pub tls_cert: String,
}

/// One OAuth provider: its static client credentials and endpoints, plus the
/// provider tokens and record id once the provider is linked.
#[derive(Debug, PartialEq)]
pub struct OauthConfig {
    pub name: String,
    pub client_id: String,
    pub client_secret: String,
    pub auth_url: String,
    pub token_url: String,
    pub scope: Vec<String>,
    pub api_key: String,
    pub access_token: Option<String>,
    pub refresh_token: Option<String>,
    pub id: Option<String>,
}

/// Field-wise agreement of two provider configurations (the scope list is
/// compared element by element).
pub open spec fn same_config(a: OauthConfig, b: OauthConfig) -> bool {
    &&& a.name == b.name
    &&& a.client_id == b.client_id
    &&& a.client_secret == b.client_secret
    &&& a.auth_url == b.auth_url
    &&& a.token_url == b.token_url
    &&& a.scope@ == b.scope@
    &&& a.api_key == b.api_key
    &&& a.access_token == b.access_token
    &&& a.refresh_token == b.refresh_token
    &&& a.id == b.id
}

impl Clone for OauthConfig {
    fn clone(&self) -> (res: Self)
        ensures
            same_config(res, *self),
    {
        OauthConfig {
            name: self.name.clone(),
            client_id: self.client_id.clone(),
            client_secret: self.client_secret.clone(),
            auth_url: self.auth_url.clone(),
            token_url: self.token_url.clone(),
            scope: clone_strings(&self.scope),
            api_key: self.api_key.clone(),
            access_token: match &self.access_token {
                Some(t) => Some(t.clone()),
                None => None,
            },
            refresh_token: match &self.refresh_token {
                Some(t) => Some(t.clone()),
                None => None,
            },
            id: match &self.id {
                Some(t) => Some(t.clone()),
                None => None,
            },
        }
    }
}

/// An exact copy of a vector of strings.
pub fn clone_strings(v: &Vec<String>) -> (r: Vec<String>)
    ensures
        r@ == v@,
{
    let mut r: Vec<String> = Vec::new();
    let n = v.len();
    let mut i: usize = 0;
    while i < n
        invariant
            n == v@.len(),
            0 <= i <= n,
            r@ == v@.subrange(0, i as int),
        decreases n - i,
    {
        r.push(v[i].clone());
        assert(r@ =~= v@.subrange(0, i + 1 as int));
        i = i + 1;
    }
    assert(v@.subrange(0, n as int) =~= v@);
    r
}

/// The sender identity and provider used for verification email.
#[derive(Debug, PartialEq)]
pub struct EmailConfig {
    pub from_address: String,
    pub provider: String,
}

impl Clone for EmailConfig {
    fn clone(&self) -> (res: Self)
        ensures
            res == *self,
    {
        EmailConfig { from_address: self.from_address.clone(), provider: self.provider.clone() }
    }
}

/// All configured OAuth providers.
#[derive(Debug, PartialEq)]
pub struct OauthWrapper {
    pub auths: Vec<OauthConfig>,
}

/// The whole static configuration.
#[derive(Debug, PartialEq)]
pub struct Configuration {
    pub database: DB,
    pub server: ServerConfig,
    pub oauth: OauthWrapper,
    pub email: EmailConfig,
}

} // verus!
