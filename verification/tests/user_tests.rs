use rm_partial_pick_remover_api::user::{DirectoryAttributes, LdapUser};

fn create_test_entry() -> DirectoryAttributes {
    DirectoryAttributes {
        account_name: Some("johndoe".to_string()),
        display_name: Some("John Doe".to_string()),
        common_name: None,
        given_name: Some("John".to_string()),
        surname: Some("Doe".to_string()),
    }
}

#[test]
fn test_from_search_entry() {
    let entry = create_test_entry();
    let user = LdapUser::from_search_entry(entry, "fallback".to_string());

    assert_eq!(user.username, "johndoe");
    assert_eq!(user.display_name, "John Doe");
}

#[test]
fn test_from_search_entry_fallback_display_name() {
    // displayName is missing but cn is present
    let entry = DirectoryAttributes {
        account_name: Some("johndoe".to_string()),
        display_name: None,
        common_name: Some("John Doe".to_string()),
        given_name: None,
        surname: None,
    };

    let user = LdapUser::from_search_entry(entry, "fallback".to_string());
    assert_eq!(user.display_name, "John Doe");
}

#[test]
fn test_from_search_entry_fallback_to_names() {
    // displayName and cn are missing, builds from givenName + sn
    let entry = DirectoryAttributes {
        account_name: Some("johndoe".to_string()),
        display_name: None,
        common_name: None,
        given_name: Some("John".to_string()),
        surname: Some("Doe".to_string()),
    };

    let user = LdapUser::from_search_entry(entry, "fallback".to_string());
    assert_eq!(user.display_name, "John Doe");
}

#[test]
fn test_from_search_entry_fallback_username() {
    // when all else fails, uses the fallback username
    let entry = DirectoryAttributes {
        account_name: Some("johndoe".to_string()),
        display_name: None,
        common_name: None,
        given_name: None,
        surname: None,
    };

    let user = LdapUser::from_search_entry(entry, "fallback".to_string());
    assert_eq!(user.username, "johndoe");
    assert_eq!(user.display_name, "fallback");
}

#[test]
fn test_display_name_precedence() {
    // displayName wins over cn
    let both = DirectoryAttributes {
        account_name: None,
        display_name: Some("John Doe".to_string()),
        common_name: Some("JD".to_string()),
        given_name: None,
        surname: None,
    };
    assert_eq!(
        LdapUser::from_search_entry(both, "fb".to_string()).display_name,
        "John Doe"
    );

    // cn alone
    let cn_only = DirectoryAttributes {
        account_name: None,
        display_name: None,
        common_name: Some("JD".to_string()),
        given_name: None,
        surname: None,
    };
    assert_eq!(LdapUser::from_search_entry(cn_only, "fb".to_string()).display_name, "JD");

    // a single name part alone
    let given_only = DirectoryAttributes {
        account_name: None,
        display_name: None,
        common_name: None,
        given_name: Some("John".to_string()),
        surname: None,
    };
    assert_eq!(LdapUser::from_search_entry(given_only, "fb".to_string()).display_name, "John");

    let surname_only = DirectoryAttributes {
        account_name: None,
        display_name: None,
        common_name: None,
        given_name: None,
        surname: Some("Doe".to_string()),
    };
    assert_eq!(LdapUser::from_search_entry(surname_only, "fb".to_string()).display_name, "Doe");

    // account name absent: username falls back to the caller's input
    let none = DirectoryAttributes {
        account_name: None,
        display_name: None,
        common_name: None,
        given_name: None,
        surname: None,
    };
    let user = LdapUser::from_search_entry(none, "fb".to_string());
    assert_eq!(user.username, "fb");
    assert_eq!(user.display_name, "fb");
}
