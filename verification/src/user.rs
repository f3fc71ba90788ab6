//! The user model resolved from a directory search entry, with the
//! attribute-preference chain for the display name.

use vstd::prelude::*;
use crate::strutil::concat3;

verus! {

/// The first value of each attribute the user search requests, already
/// reduced to plain strings by whatever drives the directory connection.
#[derive(Debug, Clone)]
pub struct DirectoryAttributes {
    /// `sAMAccountName`: the canonical account name.
    pub account_name: Option<String>,
    /// `displayName`.
    pub display_name: Option<String>,
    /// `cn` (common name).
    pub common_name: Option<String>,
    /// `givenName`.
    pub given_name: Option<String>,
    /// `sn` (surname).
    pub surname: Option<String>,
}

/// User information retrieved from the directory.
#[derive(Debug, Clone)]
pub struct LdapUser {
    /// Canonical username: the account-name attribute, or the caller's
    /// username when the attribute is absent.
    pub username: String,
    /// Display name resolved by the preference chain.
    pub display_name: String,
}

/// The display name the preference chain resolves: the display-name
/// attribute, else the common name, else given name and surname joined by a
/// space (or whichever of the two is present), else the fallback username.
pub open spec fn display_name_spec(attrs: DirectoryAttributes, fallback: Seq<char>) -> Seq<char> {
    if attrs.display_name is Some {
        attrs.display_name->0@
    } else if attrs.common_name is Some {
        attrs.common_name->0@
    } else if attrs.given_name is Some && attrs.surname is Some {
        attrs.given_name->0@ + seq![' '] + attrs.surname->0@
    } else if attrs.given_name is Some {
        attrs.given_name->0@
    } else if attrs.surname is Some {
        attrs.surname->0@
    } else {
        fallback
    }
}

/// The username `from_search_entry` resolves: the account-name attribute,
/// or the fallback username when it is absent.
pub open spec fn username_spec(attrs: DirectoryAttributes, fallback: Seq<char>) -> Seq<char> {
    if attrs.account_name is Some {
        attrs.account_name->0@
    } else {
        fallback
    }
}

impl LdapUser {
    /// Builds an `LdapUser` from the attributes of a directory search
    /// entry, falling back to `fallback_username` where attributes are
    /// absent.
    pub fn from_search_entry(attrs: DirectoryAttributes, fallback_username: String) -> (u: LdapUser)
        ensures
            u.username@ == username_spec(attrs, fallback_username@),
            u.display_name@ == display_name_spec(attrs, fallback_username@),
    {
        let username = match &attrs.account_name {
            Some(a) => a.clone(),
            None => fallback_username.clone(),
        };
        let display_name = match &attrs.display_name {
            Some(d) => d.clone(),
            None => match &attrs.common_name {
                Some(c) => c.clone(),
                None => match (&attrs.given_name, &attrs.surname) {
                    (Some(f), Some(l)) => {
                        let r = concat3(f.as_str(), " ", l.as_str());
                        proof {
                            reveal_strlit(" ");
                            assert(" "@ =~= seq![' ']);
                        }
                        r
                    },
                    (Some(f), None) => f.clone(),
                    (None, Some(l)) => l.clone(),
                    (None, None) => fallback_username.clone(),
                },
            },
        };
        LdapUser { username, display_name }
    }
}

} // verus!
