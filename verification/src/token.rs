//! The session-token issuer: builds time-bounded claims and signs them with
//! a symmetric secret.

use vstd::prelude::*;

verus! {

/// Hours a session token stays valid.
pub const TOKEN_EXPIRATION_HOURS: usize = 8;

/// The signing secret used when none is configured.  A working default is a
/// deployment hazard: production deployments must configure their own
/// secret.
pub const DEFAULT_JWT_SECRET: &'static str =
    "rm-partial-pick-remover-secret-key-change-in-production";

/// The claims a session token carries.
#[derive(Debug, Clone)]
pub struct Claims {
    /// Subject: the authenticated username.
    pub sub: String,
    /// Display name of the user, for the interface.
    pub display_name: String,
    /// Expiry, seconds since the epoch.
    pub exp: usize,
    /// Issue time, seconds since the epoch.
    pub iat: usize,
}

/// Why token issuance failed.
#[derive(Debug, Clone, PartialEq, Eq, Structural)]
pub enum TokenError {
    /// The signing call reported an error.
    Signing,
}

/// The signed token that encoding the claims `(sub, display_name, iat,
/// exp)` with `secret` produces.  The signature is deterministic, so the
/// token is a function of these five values alone.
pub uninterp spec fn token_of(
    sub: Seq<char>,
    display_name: Seq<char>,
    iat: int,
    exp: int,
    secret: Seq<char>,
) -> Seq<char>;

#[verifier::external_type_specification]
#[verifier::external_body]
pub struct ExJwtError(jsonwebtoken::errors::Error);

/// Relies on `jsonwebtoken::encode` with the default header (HS256) and a
/// symmetric secret, under the crate's `rust_crypto` provider: the body
/// lays the four claim fields into a JSON object and signs it, a
/// deterministic function of the arguments alone.  The call always
/// succeeds: the key family matches the header by construction,
/// serializing the header and a JSON object cannot fail, and the HMAC
/// signer accepts a key of any length and never fails to sign.
#[verifier::external_body]
fn encode_claims(sub: &str, display_name: &str, iat: u64, exp: u64, secret: &str) -> (r: Result<
    String,
    jsonwebtoken::errors::Error,
>)
    ensures
        r is Ok,
        r matches Ok(t) ==> t@ == token_of(sub@, display_name@, iat as int, exp as int, secret@),
{
    let mut claims = serde_json::Map::new();
    claims.insert("sub".to_string(), serde_json::Value::String(sub.to_string()));
    claims.insert("display_name".to_string(), serde_json::Value::String(display_name.to_string()));
    claims.insert("exp".to_string(), serde_json::Value::from(exp));
    claims.insert("iat".to_string(), serde_json::Value::from(iat));
    jsonwebtoken::encode(
        &jsonwebtoken::Header::default(),
        &serde_json::Value::Object(claims),
        &jsonwebtoken::EncodingKey::from_secret(secret.as_bytes()),
    )
}

/// Builds the claims for a session issued at `now`: the token expires
/// exactly `TOKEN_EXPIRATION_HOURS` hours after issue.
pub fn build_claims(username: &str, display_name: &str, now: usize) -> (c: Claims)
    requires
        now + TOKEN_EXPIRATION_HOURS * 3600 <= usize::MAX,
    ensures
        c.sub@ == username@,
        c.display_name@ == display_name@,
        c.iat == now,
        c.exp == now + TOKEN_EXPIRATION_HOURS * 3600,
        c.exp == c.iat + 28800,
{
    Claims {
        sub: String::from_str(username),
        display_name: String::from_str(display_name),
        exp: now + TOKEN_EXPIRATION_HOURS * 3600,
        iat: now,
    }
}

/// Issues a signed session token for `username` with the given display
/// name, issued at `now` and expiring eight hours later.  Issuance always
/// succeeds: the signing call cannot fail for a symmetric secret.
pub fn generate_token_with_display_name(
    username: &str,
    display_name: &str,
    secret: &str,
    now: usize,
) -> (r: Result<String, TokenError>)
    requires
        now + TOKEN_EXPIRATION_HOURS * 3600 <= usize::MAX,
    ensures
        r matches Ok(t) && t@ == token_of(
            username@,
            display_name@,
            now as int,
            now + TOKEN_EXPIRATION_HOURS * 3600,
            secret@,
        ),
{
    let c = build_claims(username, display_name, now);
    match encode_claims(c.sub.as_str(), c.display_name.as_str(), c.iat as u64, c.exp as u64, secret) {
        Ok(t) => Ok(t),
        // Unreachable: encode_claims always returns Ok.
        Err(_) => Err(TokenError::Signing),
    }
}

/// Issues a signed session token whose display name is the username
/// itself.  Issuance always succeeds.
pub fn generate_token(username: &str, secret: &str, now: usize) -> (r: Result<String, TokenError>)
    requires
        now + TOKEN_EXPIRATION_HOURS * 3600 <= usize::MAX,
    ensures
        r matches Ok(t) && t@ == token_of(
            username@,
            username@,
            now as int,
            now + TOKEN_EXPIRATION_HOURS * 3600,
            secret@,
        ),
{
    generate_token_with_display_name(username, username, secret, now)
}

} // verus!
