//! Directory configuration: validated, immutable settings for reaching the
//! directory service, and the pure helpers that build the bind principal,
//! extract the bare username and build the user search filter.

use vstd::prelude::*;
use vstd::string::StrSliceExecFns;
use crate::error::LdapError;
use crate::strutil::{
    concat2, concat3, fill_template, fill_template_spec, find_char, has_char, has_placeholder,
    lemma_fill_template_single, lemma_prefix_before_absent, lemma_prefix_before_concat_absent,
    prefix_before, str_starts_with, substring_before,
};

verus! {

/// Default directory server URL.
pub const DEFAULT_URL: &'static str = "ldaps://ldap.nwfth.com:636";

/// Default domain for the user-principal-name form of an identity.
pub const DEFAULT_DOMAIN: &'static str = "NWFTH.com";

/// Default base DN under which user searches are scoped.
pub const DEFAULT_BASE_DN: &'static str = "DC=NWFTH,DC=com";

/// Default per-step timeout in seconds.
pub const DEFAULT_TIMEOUT_SECS: u64 = 5;

/// Default user search filter template; `{}` is the placeholder for the
/// bare username.
pub const DEFAULT_USER_FILTER: &'static str = "(sAMAccountName={})";

/// Validated, immutable directory settings.  Constructed once at process
/// start and shared read-only across concurrent authentications.
#[derive(Debug, Clone)]
pub struct LdapConfig {
    /// Directory server URL (e.g. `ldaps://ldap.example.com:636`).
    pub url: String,
    /// Domain appended to bare usernames to form a principal.
    pub domain: String,
    /// Base DN for searches (e.g. `DC=example,DC=com`).
    pub base_dn: String,
    /// Per-step timeout in seconds.
    pub timeout_secs: u64,
    /// Whether to verify TLS certificates (disable only for testing).
    pub verify_certs: bool,
    /// User search filter template with a `{}` placeholder.
    pub user_filter: String,
}

/// The principal that `build_upn` returns: the input itself when it already
/// contains `@`, otherwise the input with `@` and the domain appended.
pub open spec fn upn_spec(username: Seq<char>, domain: Seq<char>) -> Seq<char> {
    if has_char(username, '@') {
        username
    } else {
        username + seq!['@'] + domain
    }
}

/// The bare username: everything before the first `@`, or the whole string
/// when there is no `@`.
pub open spec fn bare_username(s: Seq<char>) -> Seq<char> {
    prefix_before(s, '@')
}

/// Whether `url` names a directory scheme, plain or over TLS.
pub open spec fn valid_url_scheme(url: Seq<char>) -> bool {
    "ldap://"@.is_prefix_of(url) || "ldaps://"@.is_prefix_of(url)
}

impl LdapConfig {
    /// Builds a configuration from its settings, rejecting a URL whose
    /// scheme is neither `ldap://` nor `ldaps://` with a `ConfigError`.
    pub fn new(
        url: String,
        domain: String,
        base_dn: String,
        timeout_secs: u64,
        verify_certs: bool,
        user_filter: String,
    ) -> (r: Result<Self, LdapError>)
        ensures
            valid_url_scheme(url@) <==> r is Ok,
            r matches Ok(c) ==> {
                &&& c.url == url
                &&& c.domain == domain
                &&& c.base_dn == base_dn
                &&& c.timeout_secs == timeout_secs
                &&& c.verify_certs == verify_certs
                &&& c.user_filter == user_filter
            },
            r matches Err(e) ==> e matches LdapError::ConfigError(m) && m@
                == "LDAP_URL must start with ldap:// or ldaps://, got: "@ + url@,
    {
        if !str_starts_with(url.as_str(), "ldap://") && !str_starts_with(url.as_str(), "ldaps://")
        {
            let msg = concat2("LDAP_URL must start with ldap:// or ldaps://, got: ", url.as_str());
            return Err(LdapError::ConfigError(msg));
        }
        Ok(LdapConfig { url, domain, base_dn, timeout_secs, verify_certs, user_filter })
    }

    /// A field-for-field copy.  The derived `Clone` tells the verifier
    /// nothing, so the copy is built from the specified `String` clones.
    pub fn duplicate(&self) -> (r: Self)
        ensures
            r == *self,
    {
        LdapConfig {
            url: self.url.clone(),
            domain: self.domain.clone(),
            base_dn: self.base_dn.clone(),
            timeout_secs: self.timeout_secs,
            verify_certs: self.verify_certs,
            user_filter: self.user_filter.clone(),
        }
    }

    /// Builds the user-principal-name form of `username`: returned unchanged
    /// when it already contains `@`, otherwise with `@` and the domain
    /// appended.
    pub fn build_upn(&self, username: &str) -> (r: String)
        ensures
            r@ == upn_spec(username@, self.domain@),
            has_char(username@, '@') ==> r@ == username@,
            !has_char(username@, '@') ==> r@ == username@ + seq!['@'] + self.domain@,
    {
        match find_char(username, '@') {
            Some(_) => String::from_str(username),
            None => {
                let r = concat3(username, "@", self.domain.as_str());
                proof {
                    reveal_strlit("@");
                    assert("@"@ =~= seq!['@']);
                }
                r
            },
        }
    }

    /// Returns the username part of a potentially full user principal name:
    /// everything before the first `@`, or the input itself when it has
    /// none.
    pub fn extract_username(&self, upn: &str) -> (r: String)
        ensures
            r@ == bare_username(upn@),
    {
        substring_before(upn, '@')
    }

    /// Builds the search filter for finding a user, substituting the bare
    /// username into the filter template's placeholder.
    pub fn build_search_filter(&self, username: &str) -> (r: String)
        ensures
            r@ == fill_template_spec(self.user_filter@, bare_username(username@)),
    {
        let clean_username = self.extract_username(username);
        fill_template(self.user_filter.as_str(), clean_username.as_str())
    }
}

/// Whether the raw verify-certificates setting spells `false`,
/// ASCII-case-insensitively.
pub open spec fn spells_false(s: Seq<char>) -> bool {
    &&& s.len() == 5
    &&& (s[0] == 'F' || s[0] == 'f')
    &&& (s[1] == 'A' || s[1] == 'a')
    &&& (s[2] == 'L' || s[2] == 'l')
    &&& (s[3] == 'S' || s[3] == 's')
    &&& (s[4] == 'E' || s[4] == 'e')
}

/// Reads the verify-certificates setting from its raw text: every value
/// but a case-insensitive `false` keeps verification on.
pub fn parse_verify_certs(value: &str) -> (r: bool)
    ensures
        r == !spells_false(value@),
{
    let len: usize = value.unicode_len();
    if len != 5 {
        return true;
    }
    let c0 = value.get_char(0);
    let c1 = value.get_char(1);
    let c2 = value.get_char(2);
    let c3 = value.get_char(3);
    let c4 = value.get_char(4);
    !((c0 == 'F' || c0 == 'f') && (c1 == 'A' || c1 == 'a') && (c2 == 'L' || c2 == 'l') && (c3
        == 'S' || c3 == 's') && (c4 == 'E' || c4 == 'e'))
}

/// The search filter substitutes exactly the bare username into the
/// template: for a template `a{}b` holding exactly one `{}` placeholder —
/// stray single braces in the fixed parts are allowed — the filter
/// `build_search_filter` builds is `a`, then the bare username, then `b`,
/// whatever the username holds.
pub proof fn lemma_search_filter_substitutes(a: Seq<char>, b: Seq<char>, username: Seq<char>)
    requires
        !has_placeholder(a),
        !has_placeholder(b),
    ensures
        fill_template_spec(a + seq!['{', '}'] + b, bare_username(username)) == a + bare_username(
            username,
        ) + b,
{
    lemma_fill_template_single(a, b, bare_username(username));
}

/// Extracting the bare username from the principal that `build_upn` builds
/// gives the same result as extracting it from the raw input: appending a
/// domain never changes who the user is.
pub proof fn lemma_bare_username_of_upn(username: Seq<char>, domain: Seq<char>)
    ensures
        bare_username(upn_spec(username, domain)) == bare_username(username),
{
    if has_char(username, '@') {
    } else {
        lemma_prefix_before_concat_absent(username, '@', domain);
        lemma_prefix_before_absent(username, '@');
    }
}

} // verus!
