//! Identity and session management core.
//!
//! The library owns the credential lifecycle of a registered user: account
//! registration, email-ownership verification through a time-boxed
//! token/code pair, access/refresh token issuance and rotation, and the
//! OAuth authorization-code handshake guarded by a CSRF nonce.  All records
//! live in an in-process credential store whose operations mirror the
//! find-one / insert-one / update-one shape of a remote document store;
//! transports (HTTP serving, mail delivery, the remote store connection)
//! are external collaborators.

pub mod api_v1;
pub mod configuration;
pub mod database;
pub mod emailer;
pub mod errors;
mod gen;
pub mod laws;
pub mod oauth;
pub mod request;
pub mod server;
pub mod structures;
pub mod strutil;
pub mod validate;
