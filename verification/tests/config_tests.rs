use rm_partial_pick_remover_api::config::LdapConfig;
use rm_partial_pick_remover_api::error::LdapError;

fn test_config() -> LdapConfig {
    LdapConfig {
        url: "ldaps://test".to_string(),
        domain: "NWFTH.com".to_string(),
        base_dn: "DC=NWFTH,DC=com".to_string(),
        timeout_secs: 5,
        verify_certs: true,
        user_filter: "(sAMAccountName={})".to_string(),
    }
}

#[test]
fn test_build_upn() {
    let config = test_config();

    assert_eq!(config.build_upn("deachawat"), "deachawat@NWFTH.com");
    assert_eq!(config.build_upn("deachawat@NWFTH.com"), "deachawat@NWFTH.com");
    assert_eq!(config.build_upn("user@OTHER.com"), "user@OTHER.com");
}

#[test]
fn test_extract_username() {
    let config = test_config();

    assert_eq!(config.extract_username("deachawat@NWFTH.com"), "deachawat");
    assert_eq!(config.extract_username("deachawat"), "deachawat");
}

#[test]
fn test_build_search_filter() {
    let config = test_config();

    assert_eq!(config.build_search_filter("deachawat"), "(sAMAccountName=deachawat)");
    assert_eq!(config.build_search_filter("deachawat@NWFTH.com"), "(sAMAccountName=deachawat)");
}

#[test]
fn test_filter_substitutes_bare_username() {
    let config = test_config();
    assert_eq!(config.build_search_filter("jdoe@NWFTH.com"), "(sAMAccountName=jdoe)");
}

#[test]
fn test_upn_round_trip_preserves_bare_username() {
    let config = test_config();
    for u in ["deachawat", "jdoe@NWFTH.com", "user@OTHER.com", "", "a@b@c"] {
        let upn = config.build_upn(u);
        assert_eq!(config.extract_username(&upn), config.extract_username(u));
    }
}

#[test]
fn test_new_accepts_directory_schemes() {
    let c = LdapConfig::new(
        "ldap://plain.example.com:389".to_string(),
        "EXAMPLE.com".to_string(),
        "DC=example,DC=com".to_string(),
        10,
        false,
        "(uid={})".to_string(),
    )
    .unwrap();
    assert_eq!(c.url, "ldap://plain.example.com:389");
    assert_eq!(c.domain, "EXAMPLE.com");
    assert_eq!(c.timeout_secs, 10);
    assert!(!c.verify_certs);

    assert!(LdapConfig::new(
        "ldaps://secure.example.com:636".to_string(),
        "EXAMPLE.com".to_string(),
        "DC=example,DC=com".to_string(),
        5,
        true,
        "(uid={})".to_string(),
    )
    .is_ok());
}

#[test]
fn test_new_rejects_other_schemes() {
    let r = LdapConfig::new(
        "http://not-a-directory".to_string(),
        "EXAMPLE.com".to_string(),
        "DC=example,DC=com".to_string(),
        5,
        true,
        "(uid={})".to_string(),
    );
    match r {
        Err(LdapError::ConfigError(m)) => {
            assert_eq!(
                m,
                "LDAP_URL must start with ldap:// or ldaps://, got: http://not-a-directory"
            );
        }
        _ => panic!("expected a configuration error"),
    }
}
