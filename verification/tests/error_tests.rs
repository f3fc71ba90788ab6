use rm_partial_pick_remover_api::error::LdapError;

#[test]
fn test_error_display() {
    let err = LdapError::ConfigError("missing URL".to_string());
    assert_eq!(err.message(), "Configuration error: missing URL");

    let err = LdapError::AuthError("invalid password".to_string());
    assert_eq!(err.message(), "Authentication failed: invalid password");

    let err = LdapError::UserNotFound;
    assert_eq!(err.message(), "User not found");
}

#[test]
fn test_error_messages_cover_taxonomy() {
    assert_eq!(
        LdapError::ConnectionError("refused".to_string()).message(),
        "Connection failed: refused"
    );
    assert_eq!(LdapError::SearchError("oops".to_string()).message(), "Search failed: oops");
    assert_eq!(LdapError::BindError("down".to_string()).message(), "Bind failed: down");
    assert_eq!(LdapError::TimeoutError(5).message(), "Operation timed out after 5s");
    assert_eq!(LdapError::TimeoutError(120).message(), "Operation timed out after 120s");
    assert_eq!(LdapError::IoError("broken pipe".to_string()).message(), "IO error: broken pipe");
}

#[test]
fn test_identity_rejections_never_fall_back() {
    assert!(!LdapError::AuthError("bad".to_string()).triggers_fallback());
    assert!(!LdapError::UserNotFound.triggers_fallback());
}

#[test]
fn test_infrastructure_errors_always_fall_back() {
    assert!(LdapError::ConfigError("x".to_string()).triggers_fallback());
    assert!(LdapError::ConnectionError("x".to_string()).triggers_fallback());
    assert!(LdapError::SearchError("x".to_string()).triggers_fallback());
    assert!(LdapError::BindError("x".to_string()).triggers_fallback());
    assert!(LdapError::TimeoutError(5).triggers_fallback());
    assert!(LdapError::IoError("x".to_string()).triggers_fallback());
}
