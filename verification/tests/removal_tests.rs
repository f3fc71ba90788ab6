use rm_partial_pick_remover_api::removal::{
    classify_removal, has_rows, removal_success, RemovalStatus, RemoveRequest,
};

#[test]
fn test_empty_remove_request_is_refused() {
    let req = RemoveRequest { run_no: 7, row_nums: vec![], user_logon: "op".to_string() };
    assert!(!has_rows(&req));
    let req = RemoveRequest { run_no: 7, row_nums: vec![1, 2], user_logon: "op".to_string() };
    assert!(has_rows(&req));
}

#[test]
fn test_classify_removal_batches() {
    assert_eq!(classify_removal(3, 0), RemovalStatus::AllSucceeded);
    assert_eq!(classify_removal(0, 0), RemovalStatus::AllSucceeded);
    assert_eq!(classify_removal(2, 1), RemovalStatus::PartiallyCompleted);
    assert_eq!(classify_removal(0, 3), RemovalStatus::Failed);
}

#[test]
fn test_removal_success_flag() {
    assert!(removal_success(RemovalStatus::AllSucceeded));
    assert!(removal_success(RemovalStatus::PartiallyCompleted));
    assert!(!removal_success(RemovalStatus::Failed));
}
