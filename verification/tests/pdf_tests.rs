use github_export::models::{Issue, PullRequest, SecurityAlert, WorkflowRun};
use github_export::pdf_export::{export_to_pdf, PdfLine, BOTTOM_Y, LINE_H, TOP_Y};
use github_export::timestamp::Timestamp;

fn ts(text: &str) -> Timestamp {
    Timestamp::parse_rfc3339(text).unwrap()
}

fn issue(number: u64, labels: Vec<&str>, body: Option<&str>) -> Issue {
    Issue {
        number,
        title: "Fix bug".to_string(),
        state: "open".to_string(),
        author: "monalisa".to_string(),
        labels: labels.into_iter().map(|s| s.to_string()).collect(),
        assignees: vec![],
        created_at: ts("2025-11-01T09:15:00Z"),
        updated_at: ts("2025-11-15T14:32:00Z"),
        closed_at: None,
        html_url: format!("https://github.com/octocat/Hello-World/issues/{number}"),
        body: body.map(|b| b.to_string()),
        comments: 3,
        milestone: None,
    }
}

fn pull() -> PullRequest {
    PullRequest {
        number: 101,
        title: "feat: implement OAuth device flow".to_string(),
        state: "open".to_string(),
        author: "octocat".to_string(),
        labels: vec![],
        assignees: vec![],
        reviewers: vec![],
        head_branch: "feat/oauth".to_string(),
        base_branch: "main".to_string(),
        created_at: ts("2025-10-10T10:00:00Z"),
        updated_at: ts("2025-10-20T14:00:00Z"),
        merged_at: None,
        closed_at: None,
        html_url: "https://github.com/octocat/Hello-World/pull/101".to_string(),
        draft: true,
        body: None,
    }
}

fn alert(package: Option<&str>) -> SecurityAlert {
    SecurityAlert {
        id: 1,
        severity: "high".to_string(),
        summary: "lodash vulnerable to prototype pollution".to_string(),
        description: String::new(),
        package_name: package.map(|p| p.to_string()),
        vulnerable_version_range: Some("< 4.17.21".to_string()),
        patched_version: None,
        state: "open".to_string(),
        html_url: "https://github.com/octocat/Hello-World/security/dependabot/1".to_string(),
        created_at: ts("2025-09-15T12:00:00Z"),
        alert_type: "dependabot".to_string(),
        tool_name: None,
        location_path: None,
        cve_id: None,
        cwes: vec![],
        dismissed_reason: None,
        dismissed_comment: None,
    }
}

fn run() -> WorkflowRun {
    WorkflowRun {
        id: 7,
        name: "CI".to_string(),
        head_branch: None,
        run_number: 12,
        event: "push".to_string(),
        status: "completed".to_string(),
        conclusion: Some("success".to_string()),
        actor_login: "octocat".to_string(),
        created_at: "2026-01-01T00:00:00Z".to_string(),
        run_started_at: None,
        html_url: "https://github.com/octocat/Hello-World/actions/runs/7".to_string(),
        workflow_id: 3,
    }
}

fn texts(lines: &[PdfLine]) -> Vec<(usize, i64, u32, bool, String)> {
    lines.iter().map(|l| (l.page, l.y, l.size, l.bold, l.text.clone())).collect()
}

fn assert_tidy(lines: &[PdfLine]) {
    assert_eq!(lines[0].page, 0);
    for l in lines {
        assert!(BOTTOM_Y <= l.y && l.y <= TOP_Y, "line out of the margins: {:?}", l);
    }
    for w in lines.windows(2) {
        let same_page = w[1].page == w[0].page && w[1].y + LINE_H <= w[0].y;
        let next_page = w[1].page == w[0].page + 1;
        assert!(same_page || next_page, "lines out of order: {:?}", w);
    }
}

#[test]
fn empty_report_has_only_the_title() {
    let report = export_to_pdf(&[], &[], &[], &[]);
    assert_eq!(report.pages, 1);
    assert_eq!(texts(&report.lines), vec![(0, 560, 18, true, "GitHub Export Report".to_string())]);
}

#[test]
fn issue_block_lines() {
    let report = export_to_pdf(&[issue(42, vec!["bug"], Some("line1\nline2"))], &[], &[], &[]);
    assert_eq!(report.pages, 1);
    assert_eq!(
        texts(&report.lines),
        vec![
            (0, 560, 18, true, "GitHub Export Report".to_string()),
            (0, 537, 14, true, "Issues".to_string()),
            (0, 522, 11, true, "#42: Fix bug".to_string()),
            (0, 511, 9, false, "State: open  |  Author: monalisa  |  Comments: 3".to_string()),
            (0, 500, 9, false, "Labels: bug".to_string()),
            (0, 489, 9, false, "Created: 2025-11-01".to_string()),
            (0, 478, 9, false, "https://github.com/octocat/Hello-World/issues/42".to_string()),
            (0, 467, 8, false, "Body: line1 line2".to_string()),
        ]
    );
}

#[test]
fn issue_without_labels_or_body_skips_those_lines() {
    let report = export_to_pdf(&[issue(5, vec![], Some(""))], &[], &[], &[]);
    assert_eq!(report.lines.len(), 6);
    assert!(report.lines.iter().all(|l| !l.text.starts_with("Labels") && !l.text.starts_with("Body")));
}

#[test]
fn other_sections_lines() {
    let report = export_to_pdf(&[], &[pull()], &[alert(Some("lodash")), alert(None)], &[run()]);
    let t: Vec<String> = report.lines.iter().map(|l| l.text.clone()).collect();
    assert_eq!(
        t,
        vec![
            "GitHub Export Report",
            "Pull Requests",
            "#101: feat: implement OAuth device flow",
            "State: open  |  Author: octocat  |  Draft: true",
            "Head: feat/oauth  ->  Base: main",
            "https://github.com/octocat/Hello-World/pull/101",
            "Security Alerts",
            "#1 [high]: lodash vulnerable to prototype pollution",
            "Package: lodash  Vulnerable: < 4.17.21  Patched: N/A",
            "https://github.com/octocat/Hello-World/security/dependabot/1",
            "#1 [high]: lodash vulnerable to prototype pollution",
            "https://github.com/octocat/Hello-World/security/dependabot/1",
            "Workflow Runs",
            "CI [Branch: N/A]",
            "Status: completed  |  Conclusion: success  |  Actor: octocat",
            "Started: 2026-01-01T00:00:00Z",
            "https://github.com/octocat/Hello-World/actions/runs/7",
        ]
    );
    // The pull request section starts 4 mm below the title's gap.
    assert_eq!(report.lines[1].y, 537 - 8);
    assert_tidy(&report.lines);
}

#[test]
fn long_titles_are_truncated_to_80_characters() {
    let mut i = issue(1, vec![], None);
    i.title = "x".repeat(100);
    let report = export_to_pdf(&[i], &[], &[], &[]);
    let heading = &report.lines[2].text;
    assert_eq!(heading.chars().count(), 83);
    assert!(heading.ends_with("..."));
    assert!(heading.starts_with("#1: xxx"));
}

#[test]
fn many_issues_flow_over_pages_within_margins() {
    let issues: Vec<Issue> = (1..=40).map(|n| issue(n, vec!["bug"], Some("body"))).collect();
    let runs: Vec<WorkflowRun> = (0..15).map(|_| run()).collect();
    let report = export_to_pdf(&issues, &[pull()], &[alert(Some("p"))], &runs);
    assert!(report.pages > 3);
    assert_eq!(report.pages, report.lines.last().unwrap().page + 1);
    assert_tidy(&report.lines);
    // A line that opens a page sits at the top line, or 4 mm lower when it
    // is a section heading after the first section.
    for w in report.lines.windows(2) {
        if w[1].page == w[0].page + 1 {
            assert!(w[1].y == TOP_Y || (w[1].y == TOP_Y - 8 && w[1].size == 14), "{:?}", w[1]);
        }
    }
}

#[test]
fn items_are_kept_on_one_page() {
    let issues: Vec<Issue> = (1..=40).map(|n| issue(n, vec!["bug"], Some("body"))).collect();
    let report = export_to_pdf(&issues, &[], &[], &[]);
    assert!(report.pages > 2);
    let headings: Vec<usize> = (0..report.lines.len()).filter(|&k| report.lines[k].size == 11).collect();
    assert_eq!(headings.len(), 40);
    for &k in &headings {
        // Heading, state line, labels, creation date, link and body.
        let page = report.lines[k].page;
        assert!(report.lines[k..k + 6].iter().all(|l| l.page == page), "issue at line {k} is split");
        assert!(report.lines[k + 5].y >= BOTTOM_Y);
    }
}
