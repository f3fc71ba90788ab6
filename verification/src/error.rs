//! The closed failure taxonomy of the directory client, and the rule that
//! decides whether a failure is a proven identity rejection or an
//! infrastructure problem that warrants falling back to the local
//! credential store.

use vstd::prelude::*;
use crate::strutil::{concat2, concat3, dec_digits, fmt_u64};

verus! {

/// Errors that can occur during directory operations.
///
/// Every variant but `UserNotFound` carries a human-readable detail string;
/// `TimeoutError` instead carries the number of seconds that elapsed.
#[derive(Debug, Clone)]
pub enum LdapError {
    /// Configuration is missing or invalid.
    ConfigError(String),
    /// Failed to establish a connection to the directory server.
    ConnectionError(String),
    /// Authentication failed: the bind returned a non-success result code.
    AuthError(String),
    /// The bind succeeded but the user entry was not found by the search.
    UserNotFound,
    /// The search operation failed at the protocol level.
    SearchError(String),
    /// The bind operation failed at the protocol level.
    BindError(String),
    /// An operation exceeded its timeout, in seconds.
    TimeoutError(u64),
    /// An I/O error occurred during a directory operation.
    IoError(String),
}

impl LdapError {
    /// A failure that proves the identity invalid or absent: the caller must
    /// be rejected and the local credential store must not be consulted.
    pub open spec fn is_identity_rejection(&self) -> bool {
        self is AuthError || self is UserNotFound
    }

    /// Whether this failure routes the login attempt to the local credential
    /// store: exactly the non-identity failures do.
    pub fn triggers_fallback(&self) -> (r: bool)
        ensures
            r == !self.is_identity_rejection(),
    {
        match self {
            LdapError::AuthError(_) => false,
            LdapError::UserNotFound => false,
            _ => true,
        }
    }

    /// The human-readable description of this error.
    pub fn message(&self) -> (r: String)
        ensures
            r@ == self.spec_message(),
    {
        match self {
            LdapError::ConfigError(d) => concat2("Configuration error: ", d.as_str()),
            LdapError::ConnectionError(d) => concat2("Connection failed: ", d.as_str()),
            LdapError::AuthError(d) => concat2("Authentication failed: ", d.as_str()),
            LdapError::UserNotFound => String::from_str("User not found"),
            LdapError::SearchError(d) => concat2("Search failed: ", d.as_str()),
            LdapError::BindError(d) => concat2("Bind failed: ", d.as_str()),
            LdapError::TimeoutError(secs) => {
                let n = fmt_u64(*secs);
                concat3("Operation timed out after ", n.as_str(), "s")
            },
            LdapError::IoError(d) => concat2("IO error: ", d.as_str()),
        }
    }

    /// The description `message` returns, variant by variant.
    pub open spec fn spec_message(&self) -> Seq<char> {
        match self {
            LdapError::ConfigError(d) => "Configuration error: "@ + d@,
            LdapError::ConnectionError(d) => "Connection failed: "@ + d@,
            LdapError::AuthError(d) => "Authentication failed: "@ + d@,
            LdapError::UserNotFound => "User not found"@,
            LdapError::SearchError(d) => "Search failed: "@ + d@,
            LdapError::BindError(d) => "Bind failed: "@ + d@,
            LdapError::TimeoutError(secs) => "Operation timed out after "@ + dec_digits(
                *secs as int,
            ) + "s"@,
            LdapError::IoError(d) => "IO error: "@ + d@,
        }
    }
}

/// Result type for directory operations.
pub type LdapResult<T> = Result<T, LdapError>;

} // verus!
