//! The persisted record shapes: generic objects, users, verification state
//! and session records, together with the password-hashing primitive.

use vstd::prelude::*;

use crate::gen::{object_id_hex, random_alphanumeric};
use crate::strutil::{alphanumeric_char, hex_digit_char};

verus! {

/// Milliseconds a fresh verification token/code pair stays usable (24 h).
pub const VERIFY_WINDOW_MILLIS: u64 = 86400000;

/// Milliseconds an access record stays fresh after issuance (20 min).
pub const SESSION_WINDOW_MILLIS: u64 = 1200000;

/// Characters in a high-entropy bearer credential.
pub const TOKEN_LENGTH: usize = 256;

/// Characters in the short, human-relayable verification code.
pub const CODE_LENGTH: usize = 6;

/// The fixed, non-adjustable bcrypt work factor.
pub const HASH_COST: u32 = 5;

/// Whether bcrypt's check of `password` against `hash` comes out true.
/// The outcome is a function of the two strings alone.
pub uninterp spec fn bcrypt_matches(password: Seq<char>, hash: Seq<char>) -> bool;

/// Whether bcrypt's check accepts `hash` as a parsable hash string at all.
/// The outcome is a function of the hash string alone.
pub uninterp spec fn bcrypt_accepts(hash: Seq<char>) -> bool;

/// Declares bcrypt's error type, so that the hashing primitives can return
/// it; callers treat it as opaque and translate it into the domain taxonomy.
#[verifier::external_type_specification]
#[verifier::external_body]
pub struct ExBcryptError(bcrypt::BcryptError);

/// A generic identity-allocation record: every user and OAuth link gets its
/// `id` minted as one of these before the concrete record is written.
#[derive(Debug, PartialEq)]
pub struct Object {
    pub id: String,
    pub creation_time: u64,
    pub the_type: String,
}

impl Clone for Object {
    fn clone(&self) -> (res: Self)
        ensures
            res == *self,
    {
        Object {
            id: self.id.clone(),
            creation_time: self.creation_time,
            the_type: self.the_type.clone(),
        }
    }
}

/// The email-ownership verification state carried by a user record.
#[derive(Debug, PartialEq)]
pub struct Verified {
    pub verified: bool,
    pub verify_token: String,
    pub verify_code: String,
    pub verify_time: Option<u64>,
    pub expiration_time: u64,
}

impl Clone for Verified {
    fn clone(&self) -> (res: Self)
        ensures
            res == *self,
    {
        Verified {
            verified: self.verified,
            verify_token: self.verify_token.clone(),
            verify_code: self.verify_code.clone(),
            verify_time: self.verify_time,
            expiration_time: self.expiration_time,
        }
    }
}

impl Verified {
    /// Fresh verification state: unverified, a new high-entropy token and
    /// short code, expiring one verification window after `now`.
    pub fn new(now: u64) -> (r: Verified)
        requires
            now + VERIFY_WINDOW_MILLIS <= u64::MAX,
        ensures
            !r.verified,
            r.verify_token@.len() == TOKEN_LENGTH,
            r.verify_code@.len() == CODE_LENGTH,
            forall|i: int| 0 <= i < r.verify_token@.len() ==> alphanumeric_char(
                #[trigger] r.verify_token@[i],
            ),
            forall|i: int| 0 <= i < r.verify_code@.len() ==> alphanumeric_char(
                #[trigger] r.verify_code@[i],
            ),
            r.verify_time is None,
            r.expiration_time == now + VERIFY_WINDOW_MILLIS,
    {
        Verified {
            verified: false,
            verify_token: random_alphanumeric(TOKEN_LENGTH),
            verify_code: random_alphanumeric(CODE_LENGTH),
            verify_time: None,
            expiration_time: now + VERIFY_WINDOW_MILLIS,
        }
    }

    /// What a successful verification check requires: the pair is presented
    /// exactly and the expiry has not yet been reached.
    pub open spec fn spec_verify(v: Verified, token: Seq<char>, code: Seq<char>, now: u64) -> bool {
        &&& v.expiration_time > now
        &&& v.verify_token@ == token
        &&& v.verify_code@ == code
    }

    /// Check a presented token/code pair against a user's verification
    /// state at time `now`.
    pub fn verify(verifier: &User, verify_token: String, verify_code: String, now: u64) -> (r:
        bool)
        requires
            verifier.verify is Some,
        ensures
            r == Self::spec_verify(verifier.verify->0, verify_token@, verify_code@, now),
    {
        let v = verifier.verify.as_ref().unwrap();
        if v.expiration_time > now {
            v.verify_token == verify_token && v.verify_code == verify_code
        } else {
            false
        }
    }
}

/// A bearer session: the access/refresh pair issued to one user, valid for
/// one session window.
#[derive(Debug, PartialEq)]
pub struct AccessRecord {
    pub id: String,
    pub user_id: String,
    pub access_token: String,
    pub creation_time: u64,
    pub expires: u64,
    pub refresh_token: Option<String>,
}

impl Clone for AccessRecord {
    fn clone(&self) -> (res: Self)
        ensures
            res == *self,
    {
        AccessRecord {
            id: self.id.clone(),
            user_id: self.user_id.clone(),
            access_token: self.access_token.clone(),
            creation_time: self.creation_time,
            expires: self.expires,
            refresh_token: match &self.refresh_token {
                Some(t) => Some(t.clone()),
                None => None,
            },
        }
    }
}

impl AccessRecord {
    /// Mint a fresh session for `user_id` at time `now`: independently
    /// generated access and refresh tokens, expiring one session window
    /// after creation.
    pub fn new(user_id: String, now: u64) -> (r: AccessRecord)
        requires
            now + SESSION_WINDOW_MILLIS <= u64::MAX,
        ensures
            r.id@.len() == 24,
            forall|i: int| 0 <= i < r.id@.len() ==> hex_digit_char(#[trigger] r.id@[i]),
            r.user_id == user_id,
            r.access_token@.len() == TOKEN_LENGTH,
            r.refresh_token is Some,
            r.refresh_token->0@.len() == TOKEN_LENGTH,
            forall|i: int| 0 <= i < r.access_token@.len() ==> alphanumeric_char(
                #[trigger] r.access_token@[i],
            ),
            forall|i: int| 0 <= i < r.refresh_token->0@.len() ==> alphanumeric_char(
                #[trigger] r.refresh_token->0@[i],
            ),
            r.creation_time == now,
            r.expires == now + SESSION_WINDOW_MILLIS,
    {
        AccessRecord {
            id: object_id_hex(),
            user_id,
            access_token: AccessRecord::generate_random(),
            refresh_token: Some(AccessRecord::generate_random()),
            creation_time: now,
            expires: now + SESSION_WINDOW_MILLIS,
        }
    }

    fn generate_random() -> (r: String)
        ensures
            r@.len() == TOKEN_LENGTH,
            forall|i: int| 0 <= i < r@.len() ==> alphanumeric_char(#[trigger] r@[i]),
    {
        random_alphanumeric(TOKEN_LENGTH)
    }
}

/// A registered account.
#[derive(Debug, PartialEq)]
pub struct User {
    pub id: String,
    pub username: String,
    pub password: String,
    pub email: String,
    pub access_level: String,
    pub verify: Option<Verified>,
    pub access_record: Option<AccessRecord>,
    pub first_name: Option<String>,
    pub last_name: Option<String>,
    pub address: Option<String>,
    pub phone_number: Option<String>,
}

impl Clone for User {
    fn clone(&self) -> (res: Self)
        ensures
            res == *self,
    {
        User {
            id: self.id.clone(),
            username: self.username.clone(),
            password: self.password.clone(),
            email: self.email.clone(),
            access_level: self.access_level.clone(),
            verify: match &self.verify {
                Some(v) => Some(v.clone()),
                None => None,
            },
            access_record: match &self.access_record {
                Some(a) => Some(a.clone()),
                None => None,
            },
            first_name: match &self.first_name {
                Some(s) => Some(s.clone()),
                None => None,
            },
            last_name: match &self.last_name {
                Some(s) => Some(s.clone()),
                None => None,
            },
            address: match &self.address {
                Some(s) => Some(s.clone()),
                None => None,
            },
            phone_number: match &self.phone_number {
                Some(s) => Some(s.clone()),
                None => None,
            },
        }
    }
}

impl User {
    /// A record the store can hold: verification state is present (with a
    /// verification time once verified), the stored password is a hash the
    /// hashing primitive accepts, and an attached session always carries
    /// its refresh token.
    pub open spec fn wf(self) -> bool {
        &&& match self.verify {
            Some(v) => v.verified ==> v.verify_time is Some,
            None => false,
        }
        &&& bcrypt_accepts(self.password@)
        &&& match self.access_record {
            Some(r) => r.refresh_token is Some,
            None => true,
        }
    }

    /// Build a user record, hashing the plaintext password.
    pub fn new(
        id: String,
        username: String,
        password: String,
        email: String,
        access_level: String,
        verifid: Option<Verified>,
        first_name: Option<String>,
        last_name: Option<String>,
        address: Option<String>,
        phone_number: Option<String>,
    ) -> (r: Result<Self, bcrypt::BcryptError>)
        ensures
            r matches Ok(u) ==> {
                &&& u.id == id
                &&& u.username == username
                &&& bcrypt_accepts(u.password@)
                &&& bcrypt_matches(password@, u.password@)
                &&& u.email == email
                &&& u.access_level == access_level
                &&& u.verify == verifid
                &&& u.access_record is None
                &&& u.first_name == first_name
                &&& u.last_name == last_name
                &&& u.address == address
                &&& u.phone_number == phone_number
            },
    {
        match User::hash_pw(password) {
            Ok(pw) => Ok(
                User {
                    id,
                    username,
                    password: pw,
                    email,
                    access_level,
                    verify: verifid,
                    access_record: None,
                    first_name,
                    last_name,
                    address,
                    phone_number,
                },
            ),
            Err(e) => Err(e),
        }
    }

    /// Relies on bcrypt's `hash`: a fresh salted hash of the password at the
    /// fixed work factor; `verify` parses every hash it produces and accepts
    /// it against the hashed password.
    #[verifier::external_body]
    pub fn hash_pw(password: String) -> (r: Result<String, bcrypt::BcryptError>)
        ensures
            r matches Ok(h) ==> bcrypt_accepts(h@) && bcrypt_matches(password@, h@),
    {
        bcrypt::hash(password.as_bytes(), HASH_COST)
    }

    /// Relies on bcrypt's `verify`: whether the password matches the hash, a
    /// function of the two strings alone; it fails only when the hash string
    /// cannot be parsed.
    #[verifier::external_body]
    pub fn verify_pw(password: String, hashed: String) -> (r: Result<bool, bcrypt::BcryptError>)
        ensures
            bcrypt_accepts(hashed@) ==> r is Ok,
            r matches Ok(b) ==> b == bcrypt_matches(password@, hashed@),
    {
        bcrypt::verify(password, &hashed)
    }
}

} // verus!
