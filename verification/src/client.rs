//! The directory authentication protocol as a session of decisions.
//!
//! One authentication attempt walks connect, bind, search and unbind, each
//! step bounded by the configured timeout.  The session type below owns the
//! decisions of that walk: which parameters each network step receives, how
//! each step's outcome is classified into the failure taxonomy, and that the
//! connection is unbound on every exit path once it exists.  Whatever drives
//! the actual network traffic feeds each step's outcome back into the
//! session and performs the returned action.

use vstd::prelude::*;
use crate::config::{bare_username, upn_spec, LdapConfig};
use crate::error::LdapError;
use crate::strutil::{concat2, fill_template_spec};
use crate::user::{display_name_spec, username_spec, DirectoryAttributes, LdapUser};

verus! {

/// High-level directory client for authentication operations.
#[derive(Debug)]
pub struct LdapClient {
    config: LdapConfig,
}

impl LdapClient {
    /// The configuration this client was created with.
    pub closed spec fn spec_config(&self) -> LdapConfig {
        self.config
    }

    /// Creates a new directory client with the given configuration.
    pub fn new(config: LdapConfig) -> (r: Self)
        ensures
            r.spec_config() == config,
    {
        LdapClient { config }
    }
}

/// What the transport needs to open a connection to the directory.
#[derive(Debug, Clone)]
pub struct ConnectParams {
    /// The directory server URL.
    pub url: String,
    /// Whether TLS certificates must be verified; when false the transport
    /// still negotiates TLS but skips certificate and hostname checks.
    pub verify_certs: bool,
    /// Seconds the connect step may take.
    pub timeout_secs: u64,
}

/// What the simple-bind step needs.
#[derive(Debug, Clone)]
pub struct BindParams {
    /// The full bind principal (`user@domain`, or the raw input when it
    /// already contained `@`).
    pub principal: String,
    /// The caller-supplied password.
    pub password: String,
    /// Seconds the bind step may take.
    pub timeout_secs: u64,
}

/// What the user search step needs.
#[derive(Debug, Clone)]
pub struct SearchParams {
    /// The base DN under which to search, subtree scope.
    pub base_dn: String,
    /// The filter built from the bare username.
    pub filter: String,
    /// The attributes to request.
    pub attributes: Vec<String>,
    /// Seconds the search step may take.
    pub timeout_secs: u64,
}

/// How the connect step ended.
#[derive(Debug, Clone)]
pub enum ConnectOutcome {
    /// The transport is open and its driver is running.
    Connected,
    /// A transport-level failure, with its description.
    Failed(String),
    /// The step exceeded its timeout.
    TimedOut,
}

/// How the bind step ended.
#[derive(Debug, Clone)]
pub enum BindOutcome {
    /// The bind returned a success result code: the credentials are proven.
    Bound,
    /// The bind returned a non-success result code, with its description.
    Rejected(String),
    /// The bind failed at the protocol level, with a description.
    Failed(String),
    /// The step exceeded its timeout.
    TimedOut,
}

/// How the search step ended.
#[derive(Debug, Clone)]
pub enum SearchOutcome {
    /// At least one entry matched; the attributes of the first one.
    Found(DirectoryAttributes),
    /// The search succeeded but nothing matched.
    NoEntries,
    /// The search failed at the protocol level or returned a non-success
    /// result code, with a description.
    Failed(String),
    /// The step exceeded its timeout.
    TimedOut,
}

/// The next thing the connection driver must do.
///
/// Once a connection exists, every finishing action is
/// `UnbindThenFinish`: the connection is unbound on the success path and on
/// every failure path alike.  `Abort` finishes without an unbind and is
/// only ever produced while no connection exists.
#[derive(Debug)]
pub enum ProtocolAction {
    /// Issue a simple bind with these parameters.
    Bind(BindParams),
    /// Run the user search with these parameters.
    Search(SearchParams),
    /// Unbind the connection, then return the result.
    UnbindThenFinish(Result<LdapUser, LdapError>),
    /// No connection was established; return the error at once.
    Abort(LdapError),
}

/// The names of the attributes the user search requests.
pub open spec fn search_attribute_names(a: Seq<String>) -> bool {
    &&& a.len() == 6
    &&& a[0]@ == "sAMAccountName"@
    &&& a[1]@ == "displayName"@
    &&& a[2]@ == "mail"@
    &&& a[3]@ == "cn"@
    &&& a[4]@ == "givenName"@
    &&& a[5]@ == "sn"@
}

/// One directory authentication attempt: the configuration it runs under
/// and the credentials it is proving.  Credentials are held only for the
/// duration of the attempt.
pub struct AuthSession {
    /// The configuration of the client that opened the session.
    pub config: LdapConfig,
    /// The caller-supplied username, as given.
    pub username: String,
    /// The caller-supplied password.
    pub password: String,
}

impl AuthSession {
    /// Opens an authentication session and returns the parameters for the
    /// connect step.
    pub fn begin(client: &LdapClient, username: &str, password: &str) -> (r: (
        AuthSession,
        ConnectParams,
    ))
        ensures
            r.0.config == client.spec_config(),
            r.0.username@ == username@,
            r.0.password@ == password@,
            r.1.url@ == client.spec_config().url@,
            r.1.verify_certs == client.spec_config().verify_certs,
            r.1.timeout_secs == client.spec_config().timeout_secs,
    {
        let config = client.config.duplicate();
        let params = ConnectParams {
            url: config.url.clone(),
            verify_certs: config.verify_certs,
            timeout_secs: config.timeout_secs,
        };
        (AuthSession { config, username: String::from_str(username), password: String::from_str(password) }, params)
    }

    /// Classifies the outcome of the connect step.  A connection leads to
    /// the bind step with the full principal; a transport failure is a
    /// `ConnectionError` and a timeout a `TimeoutError`, both aborting
    /// before any connection exists.
    pub fn on_connect(&self, outcome: ConnectOutcome) -> (r: ProtocolAction)
        ensures
            match outcome {
                ConnectOutcome::Connected => r matches ProtocolAction::Bind(bp) && {
                    &&& bp.principal@ == upn_spec(self.username@, self.config.domain@)
                    &&& bp.password@ == self.password@
                    &&& bp.timeout_secs == self.config.timeout_secs
                },
                ConnectOutcome::Failed(d) => r matches ProtocolAction::Abort(e) && e matches
                    LdapError::ConnectionError(m) && m@ == "Failed to establish LDAP connection: "@
                    + d@,
                ConnectOutcome::TimedOut => r matches ProtocolAction::Abort(e) && e matches
                    LdapError::TimeoutError(t) && t == self.config.timeout_secs,
            },
    {
        match outcome {
            ConnectOutcome::Connected => ProtocolAction::Bind(
                BindParams {
                    principal: self.config.build_upn(self.username.as_str()),
                    password: self.password.clone(),
                    timeout_secs: self.config.timeout_secs,
                },
            ),
            ConnectOutcome::Failed(d) => ProtocolAction::Abort(
                LdapError::ConnectionError(
                    concat2("Failed to establish LDAP connection: ", d.as_str()),
                ),
            ),
            ConnectOutcome::TimedOut => ProtocolAction::Abort(
                LdapError::TimeoutError(self.config.timeout_secs),
            ),
        }
    }

    /// Classifies the outcome of the bind step.  Bind success is the
    /// authentication proof and leads to the user search; a non-success
    /// result code is an `AuthError`, a protocol-level failure a
    /// `BindError`, a timeout a `TimeoutError` — each of those unbinds the
    /// connection before finishing.
    pub fn on_bind(&self, outcome: BindOutcome) -> (r: ProtocolAction)
        ensures
            match outcome {
                BindOutcome::Bound => r matches ProtocolAction::Search(sp) && {
                    &&& sp.base_dn@ == self.config.base_dn@
                    &&& sp.filter@ == fill_template_spec(
                        self.config.user_filter@,
                        bare_username(self.username@),
                    )
                    &&& search_attribute_names(sp.attributes@)
                    &&& sp.timeout_secs == self.config.timeout_secs
                },
                BindOutcome::Rejected(d) => r matches ProtocolAction::UnbindThenFinish(res) && res
                    matches Err(e) && e matches LdapError::AuthError(m) && m@ == d@,
                BindOutcome::Failed(d) => r matches ProtocolAction::UnbindThenFinish(res) && res
                    matches Err(e) && e matches LdapError::BindError(m) && m@ == d@,
                BindOutcome::TimedOut => r matches ProtocolAction::UnbindThenFinish(res) && res
                    matches Err(e) && e matches LdapError::TimeoutError(t) && t
                    == self.config.timeout_secs,
            },
    {
        match outcome {
            BindOutcome::Bound => {
                let mut attributes: Vec<String> = Vec::new();
                attributes.push(String::from_str("sAMAccountName"));
                attributes.push(String::from_str("displayName"));
                attributes.push(String::from_str("mail"));
                attributes.push(String::from_str("cn"));
                attributes.push(String::from_str("givenName"));
                attributes.push(String::from_str("sn"));
                ProtocolAction::Search(
                    SearchParams {
                        base_dn: self.config.base_dn.clone(),
                        filter: self.config.build_search_filter(self.username.as_str()),
                        attributes,
                        timeout_secs: self.config.timeout_secs,
                    },
                )
            },
            BindOutcome::Rejected(d) => ProtocolAction::UnbindThenFinish(
                Err(LdapError::AuthError(d)),
            ),
            BindOutcome::Failed(d) => ProtocolAction::UnbindThenFinish(Err(LdapError::BindError(d))),
            BindOutcome::TimedOut => ProtocolAction::UnbindThenFinish(
                Err(LdapError::TimeoutError(self.config.timeout_secs)),
            ),
        }
    }

    /// Classifies the outcome of the search step.  A matching entry
    /// resolves the user; no match is `UserNotFound` even though the bind
    /// succeeded; a failure is a `SearchError` and a timeout a
    /// `TimeoutError`.  Every one of these unbinds the connection before
    /// finishing.
    pub fn on_search(&self, outcome: SearchOutcome) -> (r: ProtocolAction)
        ensures
            match outcome {
                SearchOutcome::Found(attrs) => r matches ProtocolAction::UnbindThenFinish(res)
                    && res matches Ok(u) && {
                    &&& u.username@ == username_spec(attrs, bare_username(self.username@))
                    &&& u.display_name@ == display_name_spec(attrs, bare_username(self.username@))
                },
                SearchOutcome::NoEntries => r matches ProtocolAction::UnbindThenFinish(res) && res
                    matches Err(e) && e matches LdapError::UserNotFound,
                SearchOutcome::Failed(d) => r matches ProtocolAction::UnbindThenFinish(res) && res
                    matches Err(e) && e matches LdapError::SearchError(m) && m@ == d@,
                SearchOutcome::TimedOut => r matches ProtocolAction::UnbindThenFinish(res) && res
                    matches Err(e) && e matches LdapError::TimeoutError(t) && t
                    == self.config.timeout_secs,
            },
    {
        match outcome {
            SearchOutcome::Found(attrs) => {
                let clean_username = self.config.extract_username(self.username.as_str());
                let user = LdapUser::from_search_entry(attrs, clean_username);
                ProtocolAction::UnbindThenFinish(Ok(user))
            },
            SearchOutcome::NoEntries => ProtocolAction::UnbindThenFinish(
                Err(LdapError::UserNotFound),
            ),
            SearchOutcome::Failed(d) => ProtocolAction::UnbindThenFinish(
                Err(LdapError::SearchError(d)),
            ),
            SearchOutcome::TimedOut => ProtocolAction::UnbindThenFinish(
                Err(LdapError::TimeoutError(self.config.timeout_secs)),
            ),
        }
    }
}

} // verus!
