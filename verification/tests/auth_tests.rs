use github_export::auth::{
    account_infos, account_token_key, add_account_entry, check_account_exists, check_new_account,
    choose_restored_account, end_session_if_active, forget_account, legacy_account, list_accounts,
    login_target, logout, new_account_id, restore_result, restore_step, AppState, RestoreAction, RestoreEvent,
    RestoreStage,
};
use github_export::models::Account;

fn account(id: &str, label: &str, username: &str) -> Account {
    Account { id: id.to_string(), label: label.to_string(), username: username.to_string() }
}

fn state_with(accounts: Vec<Account>, active: Option<&str>) -> AppState {
    let mut s = AppState::default();
    s.accounts = accounts;
    s.active_account_id = active.map(|a| a.to_string());
    s.token = active.map(|_| "tok".to_string());
    s.username = active.map(|_| "user".to_string());
    s
}

#[test]
fn default_state_is_blank() {
    let s = AppState::default();
    assert!(s.client.is_none() && s.token.is_none() && s.username.is_none());
    assert!(s.active_account_id.is_none() && s.accounts.is_empty());
}

#[test]
fn list_accounts_marks_the_active_one() {
    let s = state_with(vec![account("a", "Work", "alice"), account("b", "bob", "bob")], Some("b"));
    let infos = list_accounts(&s);
    assert_eq!(infos.len(), 2);
    assert_eq!((infos[0].id.as_str(), infos[0].label.as_str(), infos[0].is_active), ("a", "Work", false));
    assert_eq!((infos[1].username.as_str(), infos[1].is_active), ("bob", true));
    let signed_out = state_with(vec![account("a", "Work", "alice")], None);
    assert!(list_accounts(&signed_out).iter().all(|i| !i.is_active));
}

#[test]
fn login_target_reuses_known_username() {
    let s = state_with(vec![account("a", "a", "alice"), account("b", "b", "bob")], None);
    assert_eq!(login_target(&s, &"bob".to_string(), "fresh".to_string()), ("b".to_string(), false));
    assert_eq!(login_target(&s, &"carol".to_string(), "fresh".to_string()), ("fresh".to_string(), true));
}

#[test]
fn adding_a_known_username_is_refused() {
    let s = state_with(vec![account("a", "a", "alice")], None);
    assert_eq!(check_new_account(&s, &"alice".to_string()).unwrap_err(), "Account @alice is already saved.");
    assert!(check_new_account(&s, &"bob".to_string()).is_ok());
}

#[test]
fn add_account_entry_appends_with_default_label() {
    let mut s = state_with(vec![account("a", "a", "alice")], Some("a"));
    let info = add_account_entry(&mut s, "n".to_string(), None, "bob".to_string());
    assert_eq!((info.id.as_str(), info.label.as_str(), info.username.as_str(), info.is_active), ("n", "bob", "bob", false));
    assert_eq!(s.accounts.len(), 2);
    assert_eq!(s.accounts[1].label, "bob");
    let info = add_account_entry(&mut s, "m".to_string(), Some("Personal".to_string()), "carol".to_string());
    assert_eq!(info.label, "Personal");
    assert_eq!(s.active_account_id.as_deref(), Some("a"));
}

#[test]
fn switching_to_unknown_account_is_refused() {
    let s = state_with(vec![account("a", "a", "alice")], None);
    assert!(check_account_exists(&s, &"a".to_string()).is_ok());
    assert_eq!(check_account_exists(&s, &"zz".to_string()).unwrap_err(), "Account zz not found");
}

#[test]
fn removing_the_active_account_ends_the_session() {
    let mut s = state_with(vec![account("a", "a", "alice"), account("b", "b", "bob")], Some("a"));
    forget_account(&mut s, &"a".to_string());
    assert_eq!(s.accounts.len(), 1);
    assert_eq!(s.accounts[0].id, "b");
    assert!(end_session_if_active(&mut s, &"a".to_string()));
    assert!(s.token.is_none() && s.username.is_none() && s.active_account_id.is_none());
}

#[test]
fn removing_another_account_keeps_the_session() {
    let mut s = state_with(vec![account("a", "a", "alice"), account("b", "b", "bob")], Some("a"));
    forget_account(&mut s, &"b".to_string());
    assert!(!end_session_if_active(&mut s, &"b".to_string()));
    assert_eq!(s.active_account_id.as_deref(), Some("a"));
    assert_eq!(s.token.as_deref(), Some("tok"));
}

#[test]
fn add_then_remove_gives_back_the_accounts() {
    let mut s = state_with(vec![account("a", "a", "alice")], None);
    add_account_entry(&mut s, "n".to_string(), None, "bob".to_string());
    forget_account(&mut s, &"n".to_string());
    assert_eq!(s.accounts.len(), 1);
    assert_eq!(s.accounts[0].id, "a");
}

#[test]
fn logout_keeps_accounts() {
    let mut s = state_with(vec![account("a", "a", "alice")], Some("a"));
    logout(&mut s);
    assert!(s.token.is_none() && s.username.is_none() && s.active_account_id.is_none() && s.client.is_none());
    assert_eq!(s.accounts.len(), 1);
}

#[test]
fn restored_account_choice() {
    let accounts = vec![account("a", "a", "alice"), account("b", "b", "bob")];
    assert_eq!(choose_restored_account(&accounts, Some("b".to_string())), Some("b".to_string()));
    assert_eq!(choose_restored_account(&accounts, Some("gone".to_string())), Some("a".to_string()));
    assert_eq!(choose_restored_account(&accounts, None), Some("a".to_string()));
    assert_eq!(choose_restored_account(&Vec::new(), Some("b".to_string())), None);
}

#[test]
fn restore_result_reports_accounts() {
    let accounts = vec![account("a", "a", "alice"), account("b", "b", "bob")];
    let r = restore_result("bob".to_string(), &accounts, &"b".to_string());
    assert_eq!(r.username, "bob");
    assert_eq!(r.accounts.iter().map(|i| i.is_active).collect::<Vec<_>>(), vec![false, true]);
    let infos = account_infos(&accounts, "");
    assert!(infos.iter().all(|i| !i.is_active));
}

#[test]
fn legacy_account_uses_username_as_label() {
    let a = legacy_account("id1".to_string(), "octocat".to_string());
    assert_eq!((a.id.as_str(), a.label.as_str(), a.username.as_str()), ("id1", "octocat", "octocat"));
}

#[test]
fn keyring_key_and_new_ids() {
    assert_eq!(account_token_key("1234"), "token-1234");
    let id = new_account_id();
    assert_eq!(id.len(), 36);
    assert_eq!(id.chars().nth(8), Some('-'));
    assert_eq!(id.chars().nth(14), Some('4'));
    assert_ne!(new_account_id(), id);
}

fn client() -> octocrab::Octocrab {
    octocrab::Octocrab::builder().build().unwrap()
}

#[test]
fn complete_login_records_new_account_and_activates_it() {
    let rt = tokio::runtime::Builder::new_current_thread().enable_all().build().unwrap();
    let _guard = rt.enter();
    let mut s = state_with(vec![account("a", "a", "alice")], None);
    let (id, is_new) = login_target(&s, &"bob".to_string(), "fresh".to_string());
    github_export::auth::complete_login(&mut s, client(), "tok-b".to_string(), "bob".to_string(), None, id, is_new);
    assert_eq!(s.accounts.len(), 2);
    assert_eq!((s.accounts[1].id.as_str(), s.accounts[1].label.as_str()), ("fresh", "bob"));
    assert_eq!(s.active_account_id.as_deref(), Some("fresh"));
    assert_eq!(s.token.as_deref(), Some("tok-b"));
    assert!(s.client.is_some());
    // Signing in again as the same user reuses the account.
    let (id, is_new) = login_target(&s, &"bob".to_string(), "other".to_string());
    github_export::auth::complete_login(&mut s, client(), "tok-b2".to_string(), "bob".to_string(), Some("B".to_string()), id, is_new);
    assert_eq!(s.accounts.len(), 2);
    assert_eq!(s.active_account_id.as_deref(), Some("fresh"));
    assert_eq!(s.token.as_deref(), Some("tok-b2"));
}

#[test]
fn activate_switches_session() {
    let rt = tokio::runtime::Builder::new_current_thread().enable_all().build().unwrap();
    let _guard = rt.enter();
    let mut s = state_with(vec![account("a", "a", "alice"), account("b", "b", "bob")], Some("a"));
    github_export::auth::activate(&mut s, client(), "tb".to_string(), "bob".to_string(), "b".to_string());
    assert_eq!(s.active_account_id.as_deref(), Some("b"));
    assert_eq!(s.username.as_deref(), Some("bob"));
    assert_eq!(s.accounts.len(), 2);
}

#[test]
fn restore_walks_through_its_steps() {
    let rt = tokio::runtime::Builder::new_current_thread().enable_all().build().unwrap();
    let _guard = rt.enter();
    let mut s = AppState::default();
    let accounts = vec![account("a", "Work", "alice"), account("b", "bob", "bob")];
    let (stage, action) = restore_step(&mut s, RestoreStage::ReadingIndex, RestoreEvent::IndexRead(accounts));
    assert!(matches!(action, RestoreAction::ReadPreferred));
    assert_eq!(s.accounts.len(), 2);
    let (stage, action) = restore_step(&mut s, stage, RestoreEvent::PreferredRead(Some("gone".to_string())));
    assert!(matches!(&action, RestoreAction::SignIn(id) if id == "a"));
    let signed = Some((client(), "tok".to_string(), "alice".to_string()));
    let (stage, action) = restore_step(&mut s, stage, RestoreEvent::SignedIn(signed));
    assert!(matches!(stage, RestoreStage::Finished));
    let RestoreAction::Finish(Some(result)) = action else { panic!("no session restored") };
    assert_eq!(result.username, "alice");
    assert_eq!(result.accounts.iter().map(|i| i.is_active).collect::<Vec<_>>(), vec![true, false]);
    assert_eq!(s.active_account_id.as_deref(), Some("a"));
}

#[test]
fn restore_without_accounts_tries_the_legacy_token() {
    let mut s = AppState::default();
    let (stage, action) = restore_step(&mut s, RestoreStage::ReadingIndex, RestoreEvent::IndexRead(vec![]));
    assert!(matches!(action, RestoreAction::MoveLegacyToken));
    let (_, action) = restore_step(&mut s, stage, RestoreEvent::LegacyMoved(None));
    assert!(matches!(action, RestoreAction::Finish(None)));
    let (stage, action) =
        restore_step(&mut s, RestoreStage::MovingLegacy, RestoreEvent::LegacyMoved(Some(legacy_account("n".to_string(), "old".to_string()))));
    assert!(matches!(action, RestoreAction::ReadPreferred));
    let (_, action) = restore_step(&mut s, stage, RestoreEvent::PreferredRead(None));
    assert!(matches!(&action, RestoreAction::SignIn(id) if id == "n"));
    let (_, action) = restore_step(&mut s, RestoreStage::SigningIn("n".to_string()), RestoreEvent::SignedIn(None));
    assert!(matches!(action, RestoreAction::Finish(None)));
    assert!(s.active_account_id.is_none() && s.accounts.len() == 1);
}
