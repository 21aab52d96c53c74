//! The domain error taxonomy.
//!
//! Every failure surfaced by the library is one of these kinds; raw errors
//! of the collaborators (hashing primitive, encoders, the store transport)
//! are translated into them and never reach a caller uninterpreted.

use vstd::prelude::*;

verus! {

/// Credentials were present but wrong: a bad password, a malformed email
/// address, an unverified account, or expired/mismatched verify or CSRF data.
#[derive(Debug, PartialEq)]
pub struct InvalidCredentialsError {
    pub details: String,
    pub code: u32,
}

impl InvalidCredentialsError {
    pub fn new(msg: &str) -> (r: InvalidCredentialsError)
        ensures
            r.details@ == msg@,
            r.code == 1,
    {
        InvalidCredentialsError { details: msg.to_owned(), code: 1 }
    }
}

/// The named user, session or OAuth configuration does not exist.
#[derive(Debug, PartialEq)]
pub struct NotFoundError {
    pub details: String,
    pub code: u32,
}

impl NotFoundError {
    pub fn new(msg: &str) -> (r: NotFoundError)
        ensures
            r.details@ == msg@,
            r.code == 2,
    {
        NotFoundError { details: msg.to_owned(), code: 2 }
    }
}

/// A username or email address collided with an existing record.
#[derive(Debug, PartialEq)]
pub struct AlreadyExistsError {
    pub details: String,
    pub code: u32,
}

impl AlreadyExistsError {
    pub fn new(msg: &str) -> (r: AlreadyExistsError)
        ensures
            r.details@ == msg@,
            r.code == 3,
    {
        AlreadyExistsError { details: msg.to_owned(), code: 3 }
    }
}

/// Everything a store operation can fail with.
#[derive(Debug, PartialEq)]
pub enum DatabaseError {
    InvalidCredentialsError(InvalidCredentialsError),
    NotFoundError(NotFoundError),
    AlreadyExistsError(AlreadyExistsError),
    /// The underlying document store reported an error.
    StoreFailure(String),
    /// A record could not be encoded for the store.
    EncodingFailure(String),
    /// The password-hashing primitive reported an error.
    HashingFailure(String),
    /// The static configuration is unusable.
    ConfigFailure(String),
}

impl DatabaseError {
    /// The human-readable detail string of the error, whatever its kind.
    pub fn details(&self) -> (r: String)
        ensures
            r@ == self.spec_details(),
    {
        match self {
            DatabaseError::InvalidCredentialsError(e) => e.details.clone(),
            DatabaseError::NotFoundError(e) => e.details.clone(),
            DatabaseError::AlreadyExistsError(e) => e.details.clone(),
            DatabaseError::StoreFailure(s) => s.clone(),
            DatabaseError::EncodingFailure(s) => s.clone(),
            DatabaseError::HashingFailure(s) => s.clone(),
            DatabaseError::ConfigFailure(s) => s.clone(),
        }
    }

    /// What `details` returns.
    pub open spec fn spec_details(&self) -> Seq<char> {
        match self {
            DatabaseError::InvalidCredentialsError(e) => e.details@,
            DatabaseError::NotFoundError(e) => e.details@,
            DatabaseError::AlreadyExistsError(e) => e.details@,
            DatabaseError::StoreFailure(s) => s@,
            DatabaseError::EncodingFailure(s) => s@,
            DatabaseError::HashingFailure(s) => s@,
            DatabaseError::ConfigFailure(s) => s@,
        }
    }
}

} // verus!
