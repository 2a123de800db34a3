use github_export::auth::AppState;
use github_export::mock;

#[test]
fn mock_session_is_octocat() {
    let mut s = AppState::default();
    assert_eq!(mock::restore_session(&mut s).as_deref(), Some("octocat"));
    assert_eq!(s.token.as_deref(), Some("mock-token-dev"));
    assert_eq!(s.username.as_deref(), Some("octocat"));
    assert!(mock::get_dev_mode());
}

#[test]
fn mock_data_sets() {
    let repos = mock::list_repos();
    assert_eq!(repos.iter().map(|r| r.id).collect::<Vec<_>>(), vec![1_296_269, 1_300_192, 1_364_490]);
    let issues = mock::fetch_issues();
    assert_eq!(issues.iter().map(|i| i.number).collect::<Vec<_>>(), vec![42, 57, 63, 71, 78]);
    assert_eq!(issues[0].created_at.to_rfc3339(), "2025-11-01T09:15:00+00:00");
    assert_eq!(issues[3].closed_at.map(|t| t.to_rfc3339()).as_deref(), Some("2026-02-01T12:30:00+00:00"));
    let pulls = mock::fetch_pulls();
    assert_eq!(pulls.iter().map(|p| p.draft).collect::<Vec<_>>(), vec![false, false, true]);
    assert_eq!(pulls[0].merged_at.map(|t| t.date_ymd()).as_deref(), Some("2025-10-20"));
    let alerts = mock::fetch_security_alerts();
    assert_eq!(alerts.iter().map(|a| a.severity.as_str()).collect::<Vec<_>>(), vec!["high", "critical"]);
    assert_eq!(alerts[1].created_at.to_rfc3339(), "2026-01-10T08:30:00+00:00");
}
