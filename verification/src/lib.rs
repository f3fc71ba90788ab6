//! Directory-backed login service core.
//!
//! This library holds the decision logic of an authentication service that
//! checks a username/password pair against an LDAP-style directory, falls
//! back to a locally stored credential table when the directory is
//! unreachable, and issues a signed session token on success.  All network
//! and database traffic is driven by a thin shell around the library; the
//! library itself states each protocol step, classifies each failure, and
//! decides the outcome of a login attempt.

pub mod client;
pub mod config;
pub mod error;
pub mod login;
pub mod models;
pub mod removal;
pub mod strutil;
pub mod token;
pub mod user;

pub use client::LdapClient;
pub use config::LdapConfig;
pub use error::LdapError;
pub use error::LdapResult;
pub use user::LdapUser;
