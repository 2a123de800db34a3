use github_export::auth::AppState;
use github_export::commands::{
    check_repo_identifier, get_dev_mode, list_owner_id, prepare_comment, prepare_new_issue, require_client,
    require_token,
};

#[test]
fn signed_out_state_is_not_authenticated() {
    let s = AppState::default();
    assert_eq!(require_client(&s).unwrap_err(), "Not authenticated");
    assert_eq!(require_token(&s).unwrap_err(), "Not authenticated");
    assert_eq!(list_owner_id(&s), "default");
}

#[test]
fn signed_in_state_gives_token_and_owner() {
    let mut s = AppState::default();
    s.token = Some("gho_x".to_string());
    s.active_account_id = Some("acc-9".to_string());
    assert_eq!(require_token(&s).unwrap(), "gho_x");
    assert_eq!(list_owner_id(&s), "acc-9");
}

#[test]
fn repo_identifier_checks() {
    assert!(check_repo_identifier("octocat/Hello-World", "octocat", "Hello-World").is_ok());
    assert!(check_repo_identifier("my.org/repo_1", "my.org", "repo_1").is_ok());
    assert!(check_repo_identifier("über/straße", "über", "straße").is_ok());
    assert_eq!(
        check_repo_identifier("octocat/other", "octocat", "Hello-World").unwrap_err(),
        "Invalid repo identifier: full_name does not match owner/name"
    );
    assert_eq!(
        check_repo_identifier("a b/c", "a b", "c").unwrap_err(),
        "Invalid characters in repository owner or name"
    );
    assert_eq!(
        check_repo_identifier("a/b/c", "a", "b/c").unwrap_err(),
        "Invalid characters in repository owner or name"
    );
}

#[test]
fn comment_checks() {
    assert_eq!(prepare_comment("  looks good \n").unwrap(), "looks good");
    assert_eq!(prepare_comment(" \t\n ").unwrap_err(), "Comment body cannot be empty");
    assert_eq!(prepare_comment(&"a".repeat(65_536)).unwrap().len(), 65_536);
    assert_eq!(
        prepare_comment(&"a".repeat(65_537)).unwrap_err(),
        "Comment exceeds GitHub's maximum length of 65,536 characters"
    );
    // The limit counts bytes: 40,000 two-byte characters are too many.
    assert!(prepare_comment(&"é".repeat(40_000)).is_err());
}

#[test]
fn new_issue_checks() {
    assert_eq!(prepare_new_issue("  Crash on start  ", None).unwrap(), "Crash on start");
    assert_eq!(prepare_new_issue("   ", None).unwrap_err(), "Issue title cannot be empty");
    assert_eq!(
        prepare_new_issue(&"t".repeat(257), None).unwrap_err(),
        "Issue title exceeds maximum length of 256 characters"
    );
    assert!(prepare_new_issue(&"t".repeat(256), Some("body")).is_ok());
    assert_eq!(
        prepare_new_issue("ok", Some(&"b".repeat(65_537))).unwrap_err(),
        "Issue body exceeds GitHub's maximum length of 65,536 characters"
    );
}

#[test]
fn dev_mode_is_off() {
    assert!(!get_dev_mode());
}
