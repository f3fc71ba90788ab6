use rm_partial_pick_remover_api::config::parse_verify_certs;
use rm_partial_pick_remover_api::strutil::parse_u64;

#[test]
fn test_parse_u64_accepts_plain_decimals() {
    assert_eq!(parse_u64("0"), Some(0));
    assert_eq!(parse_u64("5"), Some(5));
    assert_eq!(parse_u64("120"), Some(120));
    assert_eq!(parse_u64("007"), Some(7));
    assert_eq!(parse_u64("18446744073709551615"), Some(u64::MAX));
}

#[test]
fn test_parse_u64_rejects_everything_else() {
    assert_eq!(parse_u64(""), None);
    assert_eq!(parse_u64("12a"), None);
    assert_eq!(parse_u64("-5"), None);
    assert_eq!(parse_u64("+5"), None);
    assert_eq!(parse_u64(" 5"), None);
    // One past the largest value that fits.
    assert_eq!(parse_u64("18446744073709551616"), None);
}

#[test]
fn test_parse_verify_certs() {
    assert!(!parse_verify_certs("false"));
    assert!(!parse_verify_certs("FALSE"));
    assert!(!parse_verify_certs("False"));
    assert!(parse_verify_certs("true"));
    assert!(parse_verify_certs(""));
    assert!(parse_verify_certs("0"));
    assert!(parse_verify_certs("falsey"));
}
