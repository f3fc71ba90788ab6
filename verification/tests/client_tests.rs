use rm_partial_pick_remover_api::client::{
    AuthSession, BindOutcome, ConnectOutcome, LdapClient, ProtocolAction, SearchOutcome,
};
use rm_partial_pick_remover_api::config::LdapConfig;
use rm_partial_pick_remover_api::error::LdapError;
use rm_partial_pick_remover_api::user::DirectoryAttributes;

fn test_client() -> LdapClient {
    LdapClient::new(LdapConfig {
        url: "ldaps://ldap.nwfth.com:636".to_string(),
        domain: "NWFTH.com".to_string(),
        base_dn: "DC=NWFTH,DC=com".to_string(),
        timeout_secs: 5,
        verify_certs: true,
        user_filter: "(sAMAccountName={})".to_string(),
    })
}

#[test]
fn test_begin_yields_connect_params() {
    let client = test_client();
    let (_, cp) = AuthSession::begin(&client, "jdoe", "pw");
    assert_eq!(cp.url, "ldaps://ldap.nwfth.com:636");
    assert!(cp.verify_certs);
    assert_eq!(cp.timeout_secs, 5);
}

#[test]
fn test_connect_failure_is_connection_error() {
    let client = test_client();
    let (session, _) = AuthSession::begin(&client, "jdoe", "pw");
    match session.on_connect(ConnectOutcome::Failed("connection refused".to_string())) {
        ProtocolAction::Abort(LdapError::ConnectionError(m)) => {
            assert_eq!(m, "Failed to establish LDAP connection: connection refused");
        }
        _ => panic!("expected an abort with a connection error"),
    }
}

#[test]
fn test_connect_timeout_is_timeout_error() {
    let client = test_client();
    let (session, _) = AuthSession::begin(&client, "jdoe", "pw");
    match session.on_connect(ConnectOutcome::TimedOut) {
        ProtocolAction::Abort(LdapError::TimeoutError(secs)) => assert_eq!(secs, 5),
        _ => panic!("expected an abort with a timeout"),
    }
}

#[test]
fn test_bind_uses_full_principal() {
    let client = test_client();
    let (session, _) = AuthSession::begin(&client, "jdoe", "pw");
    match session.on_connect(ConnectOutcome::Connected) {
        ProtocolAction::Bind(bp) => {
            assert_eq!(bp.principal, "jdoe@NWFTH.com");
            assert_eq!(bp.password, "pw");
            assert_eq!(bp.timeout_secs, 5);
        }
        _ => panic!("expected the bind step"),
    }
}

#[test]
fn test_bind_keeps_existing_domain() {
    let client = test_client();
    let (session, _) = AuthSession::begin(&client, "user@OTHER.com", "pw");
    match session.on_connect(ConnectOutcome::Connected) {
        ProtocolAction::Bind(bp) => assert_eq!(bp.principal, "user@OTHER.com"),
        _ => panic!("expected the bind step"),
    }
}

#[test]
fn test_bind_rejection_is_auth_error_after_unbind() {
    let client = test_client();
    let (session, _) = AuthSession::begin(&client, "jdoe", "wrong");
    match session.on_bind(BindOutcome::Rejected("invalid credentials".to_string())) {
        ProtocolAction::UnbindThenFinish(Err(LdapError::AuthError(m))) => {
            assert_eq!(m, "invalid credentials");
        }
        _ => panic!("expected unbind, then an authentication error"),
    }
}

#[test]
fn test_bind_protocol_failure_is_bind_error_after_unbind() {
    let client = test_client();
    let (session, _) = AuthSession::begin(&client, "jdoe", "pw");
    match session.on_bind(BindOutcome::Failed("connection reset".to_string())) {
        ProtocolAction::UnbindThenFinish(Err(LdapError::BindError(m))) => {
            assert_eq!(m, "connection reset");
        }
        _ => panic!("expected unbind, then a bind error"),
    }
}

#[test]
fn test_bind_timeout_is_timeout_error_after_unbind() {
    let client = test_client();
    let (session, _) = AuthSession::begin(&client, "jdoe", "pw");
    match session.on_bind(BindOutcome::TimedOut) {
        ProtocolAction::UnbindThenFinish(Err(LdapError::TimeoutError(secs))) => {
            assert_eq!(secs, 5);
        }
        _ => panic!("expected unbind, then a timeout"),
    }
}

#[test]
fn test_search_params_use_bare_username_filter() {
    let client = test_client();
    let (session, _) = AuthSession::begin(&client, "jdoe@NWFTH.com", "pw");
    match session.on_bind(BindOutcome::Bound) {
        ProtocolAction::Search(sp) => {
            assert_eq!(sp.base_dn, "DC=NWFTH,DC=com");
            assert_eq!(sp.filter, "(sAMAccountName=jdoe)");
            let expected = vec![
                "sAMAccountName".to_string(),
                "displayName".to_string(),
                "mail".to_string(),
                "cn".to_string(),
                "givenName".to_string(),
                "sn".to_string(),
            ];
            assert_eq!(sp.attributes, expected);
            assert_eq!(sp.timeout_secs, 5);
        }
        _ => panic!("expected the search step"),
    }
}

#[test]
fn test_search_found_resolves_user_after_unbind() {
    let client = test_client();
    let (session, _) = AuthSession::begin(&client, "jdoe@NWFTH.com", "pw");
    let attrs = DirectoryAttributes {
        account_name: Some("jdoe".to_string()),
        display_name: Some("John Doe".to_string()),
        common_name: None,
        given_name: None,
        surname: None,
    };
    match session.on_search(SearchOutcome::Found(attrs)) {
        ProtocolAction::UnbindThenFinish(Ok(user)) => {
            assert_eq!(user.username, "jdoe");
            assert_eq!(user.display_name, "John Doe");
        }
        _ => panic!("expected unbind, then the resolved user"),
    }
}

#[test]
fn test_search_without_entries_is_user_not_found() {
    let client = test_client();
    let (session, _) = AuthSession::begin(&client, "jdoe", "pw");
    match session.on_search(SearchOutcome::NoEntries) {
        ProtocolAction::UnbindThenFinish(Err(LdapError::UserNotFound)) => {}
        _ => panic!("expected unbind, then user-not-found"),
    }
}

#[test]
fn test_search_failure_is_search_error_after_unbind() {
    let client = test_client();
    let (session, _) = AuthSession::begin(&client, "jdoe", "pw");
    match session.on_search(SearchOutcome::Failed("Search failed: sizeLimitExceeded".to_string()))
    {
        ProtocolAction::UnbindThenFinish(Err(LdapError::SearchError(m))) => {
            assert_eq!(m, "Search failed: sizeLimitExceeded");
        }
        _ => panic!("expected unbind, then a search error"),
    }
}

#[test]
fn test_search_timeout_is_timeout_error_after_unbind() {
    let client = test_client();
    let (session, _) = AuthSession::begin(&client, "jdoe", "pw");
    match session.on_search(SearchOutcome::TimedOut) {
        ProtocolAction::UnbindThenFinish(Err(LdapError::TimeoutError(secs))) => {
            assert_eq!(secs, 5);
        }
        _ => panic!("expected unbind, then a timeout"),
    }
}
