//! The login orchestrator: the ordered decision table that routes an
//! attempt to the local-only lookup, the directory, or the fallback store,
//! and turns each result into the outcome the route layer returns.
//!
//! The store lookups and the directory session are run by whatever drives
//! I/O; this module decides what to run next and what every result means.

use vstd::prelude::*;
use crate::error::LdapError;
use crate::models::{LocalAccount, LoginResponse, UserInfo};
use crate::strutil::{concat3, trim_spec, trim_str};
use crate::token::{
    generate_token, generate_token_with_display_name, token_of, TokenError, TOKEN_EXPIRATION_HOURS,
};
use crate::user::LdapUser;
use vstd::string::StrSliceExecFns;

verus! {

/// The outcome of a login attempt.
#[derive(Debug)]
pub enum LoginOutcome {
    /// The identity is proven: a signed session token and the user.
    Success { token: String, user: UserInfo, message: String },
    /// The identity is proven invalid or absent; the message never reveals
    /// which.
    Rejected { message: String },
    /// An internal failure that is not an identity decision.
    ServerError { message: String },
}

/// What the login pipeline must do next.
#[derive(Debug)]
pub enum LoginStep {
    /// Look the username up in the credential store, restricted to rows
    /// whose authentication source is `LOCAL`.
    QueryLocal,
    /// Run the directory authentication session.
    AuthenticateDirectory,
    /// Look the username up in the credential store without a source
    /// restriction (the directory was unavailable).
    QueryFallback,
    /// The attempt is decided.
    Done(LoginOutcome),
}

/// Which lookup produced the rows handed to `evaluate_local_rows`.
#[derive(Debug, Clone, Copy, PartialEq, Eq, Structural)]
pub enum StoreMode {
    /// The local-only lookup of a `LOCAL`-prefixed username.
    LocalOnly,
    /// The fallback lookup after a directory infrastructure failure.
    Fallback,
}

/// The decision over a store lookup's rows.
#[derive(Debug)]
pub enum LocalDecision {
    /// The credentials match this account.
    Accept(UserInfo),
    /// The credentials are refused, with the user-visible message.
    Reject(String),
}

/// Whether the username routes straight to the local credential store:
/// it starts, ASCII-case-insensitively, with `LOCAL`.
pub open spec fn is_local_username(s: Seq<char>) -> bool {
    &&& s.len() >= 5
    &&& (s[0] == 'L' || s[0] == 'l')
    &&& (s[1] == 'O' || s[1] == 'o')
    &&& (s[2] == 'C' || s[2] == 'c')
    &&& (s[3] == 'A' || s[3] == 'a')
    &&& (s[4] == 'L' || s[4] == 'l')
}

/// Whether a store row may authenticate locally: its source is `LOCAL`, or
/// empty where the store has no source column.
pub open spec fn local_eligible(source: Seq<char>) -> bool {
    source == "LOCAL"@ || source.len() == 0
}

/// The display name built for a local account: first and last name joined
/// by a space and trimmed, or the username when that leaves nothing.
pub open spec fn local_display_name(a: LocalAccount) -> Seq<char> {
    let joined = trim_spec(a.first_name@ + seq![' '] + a.last_name@);
    if joined.len() == 0 {
        a.username@
    } else {
        joined
    }
}

/// The rejection message a store lookup's rows produce, or `None` when the
/// first row accepts the password.  Evaluated in order: absent row, then
/// the source rule, then the exact password match.
pub open spec fn rows_reject_message(
    rows: Seq<LocalAccount>,
    password: Seq<char>,
    mode: StoreMode,
) -> Option<Seq<char>> {
    if rows.len() == 0 {
        Some("Invalid username or password"@)
    } else {
        let a = rows[0];
        if mode == StoreMode::Fallback && a.auth_source@ == "LDAP"@ {
            Some("LDAP users must authenticate via LDAP"@)
        } else if !local_eligible(a.auth_source@) {
            Some("Invalid authentication method for this user"@)
        } else if a.stored_password@ != password {
            Some("Invalid username or password"@)
        } else {
            None
        }
    }
}

/// True of exactly the successful outcome that carries the token `tok`
/// and this user, with the message of the path that issued it.
pub open spec fn success_outcome_spec(
    o: LoginOutcome,
    username: Seq<char>,
    display_name: Seq<char>,
    tok: Seq<char>,
    via_fallback: bool,
) -> bool {
    &&& o matches LoginOutcome::Success { token, user, message }
    &&& token@ == tok
    &&& user.username@ == username
    &&& user.display_name@ == display_name
    &&& message@ == if via_fallback {
        "Login successful (SQL fallback)"@
    } else {
        "Login successful"@
    }
}

/// Whether `s` starts, ASCII-case-insensitively, with `LOCAL`.
pub fn is_local_prefix(s: &str) -> (r: bool)
    ensures
        r == is_local_username(s@),
{
    let len: usize = s.unicode_len();
    if len < 5 {
        return false;
    }
    let c0 = s.get_char(0);
    let c1 = s.get_char(1);
    let c2 = s.get_char(2);
    let c3 = s.get_char(3);
    let c4 = s.get_char(4);
    (c0 == 'L' || c0 == 'l') && (c1 == 'O' || c1 == 'o') && (c2 == 'C' || c2 == 'c') && (c3 == 'A'
        || c3 == 'a') && (c4 == 'L' || c4 == 'l')
}

/// Evaluates the rows a store lookup returned against the supplied
/// password: no row or a wrong password rejects with the generic message,
/// a non-local source rejects with a method message (an `LDAP` row in the
/// fallback lookup with its own), and a match accepts the account.
pub fn evaluate_local_rows(rows: &Vec<LocalAccount>, password: &str, mode: StoreMode) -> (d:
    LocalDecision)
    ensures
        rows_reject_message(rows@, password@, mode) matches Some(m) ==> (d matches
            LocalDecision::Reject(msg) && msg@ == m),
        rows_reject_message(rows@, password@, mode) is None ==> (d matches LocalDecision::Accept(
            u,
        ) && u.username@ == rows@[0].username@ && u.display_name@ == local_display_name(rows@[0])),
{
    if rows.len() == 0 {
        return LocalDecision::Reject(String::from_str("Invalid username or password"));
    }
    let a = &rows[0];
    let ldap_source = String::from_str("LDAP");
    if mode == StoreMode::Fallback && a.auth_source == ldap_source {
        return LocalDecision::Reject(String::from_str("LDAP users must authenticate via LDAP"));
    }
    let local_source = String::from_str("LOCAL");
    if !(a.auth_source == local_source || a.auth_source.unicode_len() == 0) {
        return LocalDecision::Reject(
            String::from_str("Invalid authentication method for this user"),
        );
    }
    let supplied = String::from_str(password);
    if !(a.stored_password == supplied) {
        return LocalDecision::Reject(String::from_str("Invalid username or password"));
    }
    let joined = concat3(a.first_name.as_str(), " ", a.last_name.as_str());
    let trimmed = trim_str(joined.as_str());
    proof {
        reveal_strlit(" ");
        assert(" "@ =~= seq![' ']);
    }
    let display_name = if trimmed.as_str().unicode_len() == 0 {
        a.username.clone()
    } else {
        trimmed
    };
    LocalDecision::Accept(UserInfo { username: a.username.clone(), display_name })
}

/// Turns an issued token into the successful outcome the route layer
/// returns — or, were signing ever to fail, into the generic server
/// error.
pub fn outcome_for_issued_token(
    user: UserInfo,
    issued: Result<String, TokenError>,
    via_fallback: bool,
) -> (o: LoginOutcome)
    ensures
        issued matches Ok(t) ==> success_outcome_spec(
            o,
            user.username@,
            user.display_name@,
            t@,
            via_fallback,
        ),
        issued is Err ==> (o matches LoginOutcome::ServerError { message } && message@
            == "Failed to generate authentication token"@),
{
    match issued {
        Ok(token) => {
            let message = if via_fallback {
                String::from_str("Login successful (SQL fallback)")
            } else {
                String::from_str("Login successful")
            };
            LoginOutcome::Success { token, user, message }
        },
        Err(_) => LoginOutcome::ServerError {
            message: String::from_str("Failed to generate authentication token"),
        },
    }
}

/// One login attempt: the credentials, the signing secret and the issue
/// time it runs under.
pub struct LoginFlow {
    /// The caller-supplied username, as given.
    pub username: String,
    /// The caller-supplied password.
    pub password: String,
    /// The token signing secret.
    pub secret: String,
    /// The issue time, seconds since the epoch.
    pub now: usize,
}

impl LoginFlow {
    /// The issue time leaves room for the eight-hour expiry.
    pub open spec fn wf(&self) -> bool {
        self.now + TOKEN_EXPIRATION_HOURS * 3600 <= usize::MAX
    }

    /// The token the flow issues for `username` with `display_name`.
    pub open spec fn spec_token(&self, username: Seq<char>, display_name: Seq<char>) -> Seq<char> {
        token_of(
            username,
            display_name,
            self.now as int,
            self.now + TOKEN_EXPIRATION_HOURS * 3600,
            self.secret@,
        )
    }

    /// Starts a login attempt.
    pub fn new(username: String, password: String, secret: String, now: usize) -> (r: Self)
        requires
            now + TOKEN_EXPIRATION_HOURS * 3600 <= usize::MAX,
        ensures
            r.username == username,
            r.password == password,
            r.secret == secret,
            r.now == now,
            r.wf(),
    {
        LoginFlow { username, password, secret, now }
    }

    /// The first step of the decision table: a username with the `LOCAL`
    /// prefix skips the directory entirely; every other username goes to
    /// the directory.
    pub fn start(&self) -> (r: LoginStep)
        ensures
            is_local_username(self.username@) ==> r is QueryLocal,
            !is_local_username(self.username@) ==> r is AuthenticateDirectory,
    {
        if is_local_prefix(self.username.as_str()) {
            LoginStep::QueryLocal
        } else {
            LoginStep::AuthenticateDirectory
        }
    }

    /// Routes the directory's verdict.  Success issues a token.  `Auth`
    /// and `UserNotFound` are proven negative identity outcomes: the
    /// attempt is rejected at once with the generic message and the store
    /// is never consulted.  Every other failure means the directory was
    /// unavailable, not the credential invalid: the fallback lookup runs.
    pub fn on_directory_result(&self, result: Result<LdapUser, LdapError>) -> (r: LoginStep)
        requires
            self.wf(),
        ensures
            result matches Ok(u) ==> (r matches LoginStep::Done(o) && success_outcome_spec(
                o,
                u.username@,
                u.display_name@,
                self.spec_token(u.username@, u.display_name@),
                false,
            )),
            result matches Err(e) && e.is_identity_rejection() ==> (r matches LoginStep::Done(
                o,
            ) && o matches LoginOutcome::Rejected { message } && message@
                == "Invalid username or password"@),
            result matches Err(e) && !e.is_identity_rejection() ==> r is QueryFallback,
    {
        match result {
            Ok(ldap_user) => {
                let issued = generate_token_with_display_name(
                    ldap_user.username.as_str(),
                    ldap_user.display_name.as_str(),
                    self.secret.as_str(),
                    self.now,
                );
                let user = UserInfo {
                    username: ldap_user.username,
                    display_name: ldap_user.display_name,
                };
                LoginStep::Done(outcome_for_issued_token(user, issued, false))
            },
            Err(e) => {
                if e.triggers_fallback() {
                    LoginStep::QueryFallback
                } else {
                    LoginStep::Done(
                        LoginOutcome::Rejected {
                            message: String::from_str("Invalid username or password"),
                        },
                    )
                }
            },
        }
    }

    /// Decides the attempt from the rows of the local-only lookup.  An
    /// accepted account is issued a token whose subject and display name
    /// are the stored username.
    pub fn on_local_rows(&self, rows: &Vec<LocalAccount>) -> (r: LoginStep)
        requires
            self.wf(),
        ensures
            rows_reject_message(rows@, self.password@, StoreMode::LocalOnly) matches Some(m) ==> (
            r matches LoginStep::Done(o) && o matches LoginOutcome::Rejected { message }
                && message@ == m),
            rows_reject_message(rows@, self.password@, StoreMode::LocalOnly) is None ==> (r
                matches LoginStep::Done(o) && success_outcome_spec(
                o,
                rows@[0].username@,
                local_display_name(rows@[0]),
                self.spec_token(rows@[0].username@, rows@[0].username@),
                false,
            )),
    {
        self.decide_rows(rows, StoreMode::LocalOnly)
    }

    /// Decides the attempt from the rows of the fallback lookup, after a
    /// directory infrastructure failure.  An `LDAP` account is refused
    /// even while the directory is down.
    pub fn on_fallback_rows(&self, rows: &Vec<LocalAccount>) -> (r: LoginStep)
        requires
            self.wf(),
        ensures
            rows_reject_message(rows@, self.password@, StoreMode::Fallback) matches Some(m) ==> (
            r matches LoginStep::Done(o) && o matches LoginOutcome::Rejected { message }
                && message@ == m),
            rows_reject_message(rows@, self.password@, StoreMode::Fallback) is None ==> (r
                matches LoginStep::Done(o) && success_outcome_spec(
                o,
                rows@[0].username@,
                local_display_name(rows@[0]),
                self.spec_token(rows@[0].username@, rows@[0].username@),
                true,
            )),
    {
        self.decide_rows(rows, StoreMode::Fallback)
    }

    /// A store lookup failed outright: the attempt ends in a generic
    /// server error, never in an identity decision.
    pub fn on_store_error(&self) -> (r: LoginStep)
        ensures
            r matches LoginStep::Done(o) && o matches LoginOutcome::ServerError { message }
                && message@ == "Authentication error"@,
    {
        LoginStep::Done(
            LoginOutcome::ServerError { message: String::from_str("Authentication error") },
        )
    }

    fn decide_rows(&self, rows: &Vec<LocalAccount>, mode: StoreMode) -> (r: LoginStep)
        requires
            self.wf(),
        ensures
            rows_reject_message(rows@, self.password@, mode) matches Some(m) ==> (r matches
                LoginStep::Done(o) && o matches LoginOutcome::Rejected { message } && message@
                == m),
            rows_reject_message(rows@, self.password@, mode) is None ==> (r matches
                LoginStep::Done(o) && success_outcome_spec(
                o,
                rows@[0].username@,
                local_display_name(rows@[0]),
                self.spec_token(rows@[0].username@, rows@[0].username@),
                mode == StoreMode::Fallback,
            )),
    {
        let via_fallback = mode == StoreMode::Fallback;
        match evaluate_local_rows(rows, self.password.as_str(), mode) {
            LocalDecision::Accept(user) => {
                let issued = generate_token(user.username.as_str(), self.secret.as_str(), self.now);
                LoginStep::Done(outcome_for_issued_token(user, issued, via_fallback))
            },
            LocalDecision::Reject(message) => LoginStep::Done(LoginOutcome::Rejected { message }),
        }
    }
}

/// Maps a login outcome onto the response body the route layer returns:
/// only success carries a token and a user, and the message is the
/// outcome's own.
pub fn outcome_to_response(o: LoginOutcome) -> (r: LoginResponse)
    ensures
        o matches LoginOutcome::Success { token, user, message } ==> ({
            &&& r.success
            &&& r.token matches Some(t) && t == token
            &&& r.user matches Some(u) && u == user
            &&& r.message == message
        }),
        o matches LoginOutcome::Rejected { message } ==> (!r.success && r.token is None && r.user
            is None && r.message == message),
        o matches LoginOutcome::ServerError { message } ==> (!r.success && r.token is None
            && r.user is None && r.message == message),
{
    match o {
        LoginOutcome::Success { token, user, message } => LoginResponse {
            success: true,
            token: Some(token),
            user: Some(user),
            message,
        },
        LoginOutcome::Rejected { message } => LoginResponse {
            success: false,
            token: None,
            user: None,
            message,
        },
        LoginOutcome::ServerError { message } => LoginResponse {
            success: false,
            token: None,
            user: None,
            message,
        },
    }
}

/// The HTTP status the route layer answers with for each outcome.
pub fn status_code(o: &LoginOutcome) -> (c: u16)
    ensures
        o is Success <==> c == 200,
        o is Rejected <==> c == 401,
        o is ServerError <==> c == 500,
{
    match o {
        LoginOutcome::Success { .. } => 200,
        LoginOutcome::Rejected { .. } => 401,
        LoginOutcome::ServerError { .. } => 500,
    }
}

} // verus!
