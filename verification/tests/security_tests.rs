use github_export::security::{
    alerts_from_responses, code_scanning_alert, code_scanning_alerts_path, dependabot_alert,
    dependabot_alerts_path, dependabot_failure_message, github_api_error_detail, CodeScanningAlertInstance,
    CodeScanningAlertRule, CodeScanningAlertTool, CodeScanningLocation, RawAdvisory, RawCodeScanningAlert,
    RawCwe, RawDependabotAlert, RawPackage, RawPatchedVersion, RawVulnerability,
};

fn dependabot(number: u64, created_at: &str) -> RawDependabotAlert {
    RawDependabotAlert {
        number,
        state: "open".to_string(),
        html_url: format!("https://x/dependabot/{number}"),
        created_at: created_at.to_string(),
        security_advisory: Some(RawAdvisory {
            summary: Some("lodash prototype pollution".to_string()),
            description: None,
            severity: Some("high".to_string()),
            cve_id: Some("CVE-2021-23337".to_string()),
            cwes: Some(vec![RawCwe { cwe_id: Some("CWE-1321".to_string()) }, RawCwe { cwe_id: None }, RawCwe { cwe_id: Some("CWE-94".to_string()) }]),
        }),
        security_vulnerability: Some(RawVulnerability {
            package: Some(RawPackage { name: Some("lodash".to_string()) }),
            vulnerable_version_range: Some("< 4.17.21".to_string()),
            first_patched_version: Some(RawPatchedVersion { identifier: Some("4.17.21".to_string()) }),
        }),
        dismissed_reason: None,
        dismissed_comment: Some("later".to_string()),
    }
}

fn scanning(number: u64, description: Option<&str>, id: Option<&str>) -> RawCodeScanningAlert {
    RawCodeScanningAlert {
        number,
        state: "open".to_string(),
        rule: CodeScanningAlertRule {
            id: id.map(|s| s.to_string()),
            description: description.map(|s| s.to_string()),
            severity: None,
        },
        tool: CodeScanningAlertTool { name: Some("CodeQL".to_string()) },
        most_recent_instance: Some(CodeScanningAlertInstance {
            location: Some(CodeScanningLocation { path: Some("src/main.rs".to_string()) }),
        }),
        created_at: "2026-01-10T08:30:00Z".to_string(),
        html_url: format!("https://x/code-scanning/{number}"),
    }
}

#[test]
fn paths_follow_the_state_filter() {
    assert_eq!(dependabot_alerts_path("o", "r", Some("open")), "/repos/o/r/dependabot/alerts?per_page=100&state=open");
    assert_eq!(dependabot_alerts_path("o", "r", Some("closed")), "/repos/o/r/dependabot/alerts?per_page=100");
    assert_eq!(dependabot_alerts_path("o", "r", None), "/repos/o/r/dependabot/alerts?per_page=100");
    assert_eq!(code_scanning_alerts_path("o", "r", Some("open")), "/repos/o/r/code-scanning/alerts?per_page=100&state=open");
    assert_eq!(code_scanning_alerts_path("o", "r", Some("all")), "/repos/o/r/code-scanning/alerts?per_page=100");
}

#[test]
fn dependabot_alert_fields() {
    let a = dependabot_alert(dependabot(1, "2025-09-15T12:00:00Z"));
    assert_eq!((a.id, a.severity.as_str(), a.summary.as_str(), a.description.as_str()), (1, "high", "lodash prototype pollution", ""));
    assert_eq!(a.package_name.as_deref(), Some("lodash"));
    assert_eq!(a.vulnerable_version_range.as_deref(), Some("< 4.17.21"));
    assert_eq!(a.patched_version.as_deref(), Some("4.17.21"));
    assert_eq!(a.cve_id.as_deref(), Some("CVE-2021-23337"));
    assert_eq!(a.cwes, vec!["CWE-1321".to_string(), "CWE-94".to_string()]);
    assert_eq!(a.alert_type, "dependabot");
    assert_eq!(a.created_at.secs(), 1_757_937_600);
    assert!(a.tool_name.is_none() && a.location_path.is_none());
    assert_eq!(a.dismissed_comment.as_deref(), Some("later"));
}

#[test]
fn dependabot_alert_without_advisory() {
    let mut raw = dependabot(2, "not a date");
    raw.security_advisory = None;
    raw.security_vulnerability = None;
    let a = dependabot_alert(raw);
    assert_eq!((a.severity.as_str(), a.summary.as_str()), ("unknown", ""));
    assert!(a.package_name.is_none() && a.cve_id.is_none() && a.cwes.is_empty());
    // An unreadable creation time is replaced by the fetch time.
    assert!(a.created_at.secs() > 1_704_067_200);
}

#[test]
fn code_scanning_alert_fields() {
    let a = code_scanning_alert(scanning(5, Some("SQL injection"), Some("js/sql")));
    assert_eq!((a.summary.as_str(), a.severity.as_str(), a.alert_type.as_str()), ("SQL injection", "unknown", "code_scanning"));
    assert_eq!(a.tool_name.as_deref(), Some("CodeQL"));
    assert_eq!(a.location_path.as_deref(), Some("src/main.rs"));
    assert_eq!(a.created_at.secs(), 1_768_033_800);
    assert_eq!(code_scanning_alert(scanning(6, None, Some("js/sql"))).summary, "js/sql");
    assert_eq!(code_scanning_alert(scanning(7, None, None)).summary, "Unknown");
}

#[test]
fn alerts_keep_dependabot_first() {
    let all = alerts_from_responses(vec![dependabot(1, "2025-09-15T12:00:00Z")], Some(vec![scanning(9, None, None)]));
    assert_eq!(all.iter().map(|a| a.id).collect::<Vec<_>>(), vec![1, 9]);
    let only = alerts_from_responses(vec![dependabot(1, "2025-09-15T12:00:00Z")], None);
    assert_eq!(only.len(), 1);
}

#[test]
fn dependabot_failure_text() {
    let detail = github_api_error_detail("403 Forbidden", "Resource not accessible");
    assert_eq!(detail, "GitHub API error 403 Forbidden: Resource not accessible");
    let msg = dependabot_failure_message(&detail);
    assert!(msg.starts_with("Failed to fetch Dependabot alerts: GitHub API error 403 Forbidden: Resource not accessible\n\nToken permission requirements:\n"));
    assert!(msg.ends_with("(Settings → Security → Advanced Security → Dependabot Alerts → Enable)."));
}
