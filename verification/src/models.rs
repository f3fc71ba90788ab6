//! Plain data carried between the route layer and the login pipeline.

use vstd::prelude::*;

verus! {

/// A login attempt: the credentials the caller presents.  Held only for
/// the duration of one authentication call; never logged, never persisted.
#[derive(Debug)]
pub struct LoginRequest {
    /// The username, bare or in `user@domain` form.
    pub username: String,
    /// The password.
    pub password: String,
}

/// The authenticated identity returned to the caller.
#[derive(Debug, Clone)]
pub struct UserInfo {
    /// Canonical username.
    pub username: String,
    /// Resolved display name.
    pub display_name: String,
}

/// What the route layer returns for a login attempt.
#[derive(Debug)]
pub struct LoginResponse {
    /// Whether the login succeeded.
    pub success: bool,
    /// The signed session token on success.
    pub token: Option<String>,
    /// The authenticated identity on success.
    pub user: Option<UserInfo>,
    /// A user-visible message.
    pub message: String,
}

/// A row of the local credential store consulted when the directory is
/// skipped or unavailable.
#[derive(Debug, Clone)]
pub struct LocalAccount {
    /// The stored username.
    pub username: String,
    /// First name, possibly empty.
    pub first_name: String,
    /// Last name, possibly empty.
    pub last_name: String,
    /// The stored password, compared by exact match.
    pub stored_password: String,
    /// The account's authentication source: `LOCAL`, `LDAP`, another
    /// value, or empty where the store has no such column.
    pub auth_source: String,
}

} // verus!
