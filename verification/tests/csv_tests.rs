use github_export::csv_export::{export_actions_csv, export_report_csv, export_to_csv};
use github_export::models::{Issue, PullRequest, SecurityAlert, WorkflowRun};
use github_export::timestamp::Timestamp;

fn issue() -> Issue {
    Issue {
        number: 42,
        title: "Fix null pointer".to_string(),
        state: "open".to_string(),
        author: "monalisa".to_string(),
        labels: vec!["bug".to_string(), "priority: high".to_string()],
        assignees: vec![],
        created_at: Timestamp::parse_rfc3339("2025-11-01T09:15:00Z").unwrap(),
        updated_at: Timestamp::parse_rfc3339("2025-11-15T14:32:00Z").unwrap(),
        closed_at: None,
        html_url: "https://github.com/o/r/issues/42".to_string(),
        body: None,
        comments: 0,
        milestone: None,
    }
}

fn pull() -> PullRequest {
    PullRequest {
        number: 7,
        title: "Add, then test".to_string(),
        state: "Open".to_string(),
        author: "octocat".to_string(),
        labels: vec![],
        assignees: vec![],
        reviewers: vec![],
        head_branch: "feat".to_string(),
        base_branch: "main".to_string(),
        created_at: Timestamp::unix_epoch(),
        updated_at: Timestamp::unix_epoch(),
        merged_at: None,
        closed_at: None,
        html_url: "https://github.com/o/r/pull/7".to_string(),
        draft: false,
        body: None,
    }
}

fn alert() -> SecurityAlert {
    SecurityAlert {
        id: 3,
        severity: "critical".to_string(),
        summary: "bad".to_string(),
        description: String::new(),
        package_name: Some("lodash".to_string()),
        vulnerable_version_range: None,
        patched_version: None,
        state: "open".to_string(),
        html_url: "https://github.com/o/r/security/dependabot/3".to_string(),
        created_at: Timestamp::unix_epoch(),
        alert_type: "dependabot".to_string(),
        tool_name: None,
        location_path: None,
        cve_id: None,
        cwes: vec![],
        dismissed_reason: None,
        dismissed_comment: None,
    }
}

#[test]
fn issues_section_is_written_with_quoting() {
    let bytes = export_to_csv(&[issue()], &[], &[]);
    let text = String::from_utf8(bytes).unwrap();
    assert_eq!(
        text,
        "[Issues],,,,,,\n\
         Number,Title,State,Author,Labels,Created,URL\n\
         42,Fix null pointer,open,monalisa,\"bug, priority: high\",2025-11-01T09:15:00+00:00,https://github.com/o/r/issues/42\n\
         ,,,,,,\n"
    );
}

#[test]
fn pull_requests_alone_are_written() {
    let bytes = export_to_csv(&[], &[pull()], &[]);
    let text = String::from_utf8(bytes).unwrap();
    assert_eq!(
        text,
        "[Pull Requests],,,,,,,\n\
         Number,Title,State,Author,Head,Base,Draft,URL\n\
         7,\"Add, then test\",Open,octocat,feat,main,false,https://github.com/o/r/pull/7\n\
         ,,,,,,,\n"
    );
}

#[test]
fn issues_and_alerts_share_a_file() {
    let bytes = export_to_csv(&[issue()], &[], &[alert()]);
    let text = String::from_utf8(bytes).unwrap();
    assert!(text.ends_with(
        "[Security Alerts],,,,,,\n\
         ID,Severity,Summary,Package,Vulnerable Range,Patched,URL\n\
         3,critical,bad,lodash,—,—,https://github.com/o/r/security/dependabot/3\n"
    ));
}

#[test]
fn every_section_shares_one_file() {
    let text = String::from_utf8(export_to_csv(&[issue()], &[pull()], &[alert()])).unwrap();
    assert_eq!(
        text,
        "[Issues],,,,,,\n\
         Number,Title,State,Author,Labels,Created,URL\n\
         42,Fix null pointer,open,monalisa,\"bug, priority: high\",2025-11-01T09:15:00+00:00,https://github.com/o/r/issues/42\n\
         ,,,,,,\n\
         [Pull Requests],,,,,,,\n\
         Number,Title,State,Author,Head,Base,Draft,URL\n\
         7,\"Add, then test\",Open,octocat,feat,main,false,https://github.com/o/r/pull/7\n\
         ,,,,,,,\n\
         [Security Alerts],,,,,,\n\
         ID,Severity,Summary,Package,Vulnerable Range,Patched,URL\n\
         3,critical,bad,lodash,—,—,https://github.com/o/r/security/dependabot/3\n"
    );
}

#[test]
fn quotes_and_line_breaks_are_quoted() {
    let mut i = issue();
    i.title = "say \"hi\"\nnow".to_string();
    i.labels = vec![];
    let text = String::from_utf8(export_to_csv(&[i], &[], &[])).unwrap();
    assert!(text.contains("\n42,\"say \"\"hi\"\"\nnow\",open,monalisa,,2025-11-01T09:15:00+00:00,"), "{text}");
}

#[test]
fn nothing_to_export_gives_an_empty_document() {
    assert_eq!(export_to_csv(&[], &[], &[]), Vec::<u8>::new());
}

#[test]
fn workflow_runs_csv() {
    let runs = vec![
        WorkflowRun {
            id: 9,
            name: "CI".to_string(),
            head_branch: Some("main".to_string()),
            run_number: 1,
            event: "push".to_string(),
            status: "completed".to_string(),
            conclusion: None,
            actor_login: "octocat".to_string(),
            created_at: "2026-01-01T00:00:00Z".to_string(),
            run_started_at: Some("2026-01-01T00:01:00Z".to_string()),
            html_url: "https://x/9".to_string(),
            workflow_id: 2,
        },
        WorkflowRun {
            id: 10,
            name: "Lint".to_string(),
            head_branch: None,
            run_number: 2,
            event: "push".to_string(),
            status: "queued".to_string(),
            conclusion: Some("success".to_string()),
            actor_login: String::new(),
            created_at: "2026-01-02T00:00:00Z".to_string(),
            run_started_at: None,
            html_url: "https://x/10".to_string(),
            workflow_id: 2,
        },
    ];
    let text = String::from_utf8(export_actions_csv(&runs)).unwrap();
    assert_eq!(
        text,
        "ID,Workflow,Branch,Status,Conclusion,Actor,Started,URL\n\
         9,CI,main,completed,,octocat,2026-01-01T00:01:00Z,https://x/9\n\
         10,Lint,,queued,success,,2026-01-02T00:00:00Z,https://x/10\n"
    );
}

#[test]
fn report_with_runs_adds_a_runs_section() {
    let run = WorkflowRun {
        id: 9,
        name: "CI".to_string(),
        head_branch: Some("main".to_string()),
        run_number: 1,
        event: "push".to_string(),
        status: "completed".to_string(),
        conclusion: Some("success".to_string()),
        actor_login: "octocat".to_string(),
        created_at: "2026-01-01T00:00:00Z".to_string(),
        run_started_at: None,
        html_url: "https://x/9".to_string(),
        workflow_id: 2,
    };
    let text = String::from_utf8(export_report_csv(&[], &[pull()], &[], &[run])).unwrap();
    assert!(text.ends_with(
        ",,,,,,,\n\
         [Workflow Runs],,,,,,,\n\
         ID,Workflow,Branch,Status,Conclusion,Actor,Started,URL\n\
         9,CI,main,completed,success,octocat,2026-01-01T00:00:00Z,https://x/9\n"
    ), "{text}");
    assert_eq!(export_report_csv(&[issue()], &[], &[], &[]), export_to_csv(&[issue()], &[], &[]));
}

fn read_back(bytes: &[u8]) -> Vec<Vec<String>> {
    csv::ReaderBuilder::new()
        .has_headers(false)
        .flexible(true)
        .from_reader(bytes)
        .records()
        .map(|r| r.unwrap().iter().map(|f| f.to_string()).collect())
        .collect()
}

#[test]
fn exports_read_back_field_for_field() {
    let mut i = issue();
    i.title = "a \"quoted\", multi\nline title".to_string();
    let bytes = export_to_csv(&[i.clone()], &[pull()], &[alert()]);
    let records = read_back(&bytes);
    assert_eq!(records.len(), 4 + 4 + 3);
    assert_eq!(
        records[2],
        vec![
            "42".to_string(),
            i.title.clone(),
            "open".to_string(),
            "monalisa".to_string(),
            "bug, priority: high".to_string(),
            "2025-11-01T09:15:00+00:00".to_string(),
            "https://github.com/o/r/issues/42".to_string(),
        ]
    );
    assert_eq!(records[6][1], "Add, then test");
    assert_eq!(records[10][4], "—");
}
