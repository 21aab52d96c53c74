//! Composition of notification email and of the provider send request.
//!
//! Everything here is pure composition: the worker pool and the HTTPS
//! transport that actually deliver a message are external collaborators and
//! consume these values as-is.

use vstd::prelude::*;

use base64::Engine;

use crate::structures::User;

verus! {

/// The URL-safe base64 encoding (with padding) of the UTF-8 bytes of a
/// string.  The outcome is a function of the string alone.
pub uninterp spec fn base64_url_of(s: Seq<char>) -> Seq<char>;

/// Relies on base64's `URL_SAFE` engine: the URL-safe, padded base64
/// encoding of the string's UTF-8 bytes, a pure function of its input.
#[verifier::external_body]
fn encode_base64_url(s: &str) -> (r: String)
    ensures
        r@ == base64_url_of(s@),
{
    base64::engine::general_purpose::URL_SAFE.encode(s.as_bytes())
}

/// The JSON body the provider's send endpoint expects: the whole message,
/// base64-encoded, under the single key `raw`.
pub open spec fn spec_send_body(message: Seq<char>) -> Seq<char> {
    "{ \"raw\" : \""@ + base64_url_of(message) + "\" }"@
}

/// Frame a fully rendered message as the provider's send-request body.
pub fn gmail_send_body(message: &str) -> (r: String)
    ensures
        r@ == spec_send_body(message@),
{
    "{ \"raw\" : \"".to_owned().concat(encode_base64_url(message).as_str()).concat("\" }")
}

/// The bearer authorization header carrying a provider access token.
pub fn bearer_header(token: &str) -> (r: String)
    ensures
        r@ == "Authorization: Bearer "@ + token@,
{
    "Authorization: Bearer ".to_owned().concat(token)
}

/// The provider's send endpoint, keyed by the configured API key.
pub fn gmail_send_url(api_key: &str) -> (r: String)
    ensures
        r@ == "https://www.googleapis.com/gmail/v1/users/me/messages/send?alt=json&prettyPrint=true&key="@
            + api_key@,
{
    "https://www.googleapis.com/gmail/v1/users/me/messages/send?alt=json&prettyPrint=true&key=".to_owned().concat(
        api_key,
    )
}

/// A composed message, ready for the delivery transport.
#[derive(Debug, PartialEq)]
pub struct Email {
    pub from: String,
    pub to_address: String,
    pub to_name: String,
    pub subject: String,
    pub html: String,
    pub text: String,
}

impl Clone for Email {
    fn clone(&self) -> (res: Self)
        ensures
            res == *self,
    {
        Email {
            from: self.from.clone(),
            to_address: self.to_address.clone(),
            to_name: self.to_name.clone(),
            subject: self.subject.clone(),
            html: self.html.clone(),
            text: self.text.clone(),
        }
    }
}

/// The notification dispatcher's composing half: it builds messages; a
/// worker pool of `n_threads` (owned by the embedding program) delivers
/// them fire-and-forget.
#[derive(Debug, PartialEq)]
pub struct Emailer {
    pub n_threads: usize,
}

impl Emailer {
    pub fn new(num_threads: usize) -> (r: Emailer)
        ensures
            r.n_threads == num_threads,
    {
        Emailer { n_threads: num_threads }
    }

    /// Compose a message from its parts; `to` is the recipient's address and
    /// display name.
    pub fn build_email(
        &self,
        from: String,
        to: (String, String),
        subject: String,
        html: String,
        text: String,
    ) -> (r: Email)
        ensures
            r.from == from,
            r.to_address == to.0,
            r.to_name == to.1,
            r.subject == subject,
            r.html == html,
            r.text == text,
    {
        let (to_address, to_name) = to;
        Email { from, to_address, to_name, subject, html, text }
    }

    /// Compose the verification email for a freshly registered user: the
    /// fixed subject, and an HTML and a plain-text rendering that carry the
    /// user's verification code.
    pub fn verification_email(&self, from_address: String, user: &User) -> (r: Email)
        requires
            user.verify is Some,
        ensures
            r.from == from_address,
            r.to_address@ == user.email@,
            r.to_name@ == user.username@,
            r.subject@ == "Login Verification Code"@,
            r.html@ == "<h2><u>Your verification code is</u>:<b> "@ + user.verify->0.verify_code@
                + "</b></h2>"@,
            r.text@ == "Your verification code is: "@ + user.verify->0.verify_code@,
    {
        let code = &user.verify.as_ref().unwrap().verify_code;
        let html = "<h2><u>Your verification code is</u>:<b> ".to_owned().concat(
            code.as_str(),
        ).concat("</b></h2>");
        let text = "Your verification code is: ".to_owned().concat(code.as_str());
        Email {
            from: from_address,
            to_address: user.email.clone(),
            to_name: user.username.clone(),
            subject: "Login Verification Code".to_owned(),
            html,
            text,
        }
    }
}

} // verus!
